use model_merge::config::{
    MergeConfig, MergeMethod, MethodParams, OutputConfig, OutputFormat, ParentWeight,
};
use model_merge::error::ModelError;
use model_merge::executor::{
    advance, auxiliary_files, begin, find_auxiliary_source, plan_has_sources, BaseTensor, Folder,
    MergeAction, MergeEvent, MergeRun, MergeStage, Notice, Percent, Work, WriterSetup,
};
use model_merge::model::{ModelFormat, ModelInfo, TensorInfo};
use model_merge::planner::{build_plan, TensorMergePlan, TensorOperation};
use model_merge::registry::ParentRegistry;

fn info(name: &str, format: ModelFormat, tensors: &[(&str, &[u64])]) -> ModelInfo {
    let all: Vec<TensorInfo> = tensors
        .iter()
        .map(|(n, s)| TensorInfo { name: n.to_string(), dtype: "F32".to_string(), shape: s.to_vec() })
        .collect();
    ModelInfo {
        file_name: name.to_string(),
        file_path: format!("/models/{}", name),
        file_size: 2048,
        file_size_display: "2.00 KB".to_string(),
        format,
        tensor_count: all.len() as u64,
        parameter_count: 0,
        parameter_count_display: "0".to_string(),
        layer_count: None,
        quantization: None,
        architecture: None,
        context_length: None,
        embedding_size: None,
        metadata: vec![],
        tensor_preview: vec![],
        all_tensors: all,
        shard_count: None,
        has_tokenizer: None,
        has_config: None,
        model_type: None,
        vocab_size: None,
    }
}

fn setup(method: MergeMethod, format: OutputFormat) -> (MergeConfig, ParentRegistry, TensorMergePlan, Vec<String>) {
    let mut reg = ParentRegistry::new();
    let a = reg.add(info("a.gguf", ModelFormat::Gguf, &[("shared.w", &[2, 2]), ("only_a.w", &[3])]), 0, false).unwrap();
    let b = reg.add(info("b", ModelFormat::SafeTensors, &[("shared.w", &[2, 2])]), 1, true).unwrap();
    let cfg = MergeConfig {
        parents: vec![
            ParentWeight { parent_id: a.id.clone(), weight_bits: 0.25f64.to_bits() },
            ParentWeight { parent_id: b.id.clone(), weight_bits: 0.75f64.to_bits() },
        ],
        method,
        params: MethodParams::default(),
        base_parent_id: None,
        layer_assignments: vec![],
        component_overrides: vec![],
        tensor_overrides: vec![],
        output: OutputConfig { format, path: "/out/merged".to_string(), model_name: "merged".to_string() },
        memory_limit_mb: None,
        projection_strategy: Some("zero_padding".to_string()),
        skip_layers: vec![],
        batch_size: 1,
    };
    let plan = build_plan(&cfg, &reg).unwrap();
    (cfg, reg, plan, vec![a.id, b.id])
}

fn phases(action: &MergeAction) -> Vec<String> {
    action
        .notices
        .iter()
        .map(|n| match n {
            Notice::Phase(p) => format!("phase:{}:{}", p.phase, p.detail),
            Notice::Progress(p) => format!(
                "progress:{}:{:?}:{}:{:?}:{}/{}",
                p.stage, p.percent, p.message, p.current_tensor, p.tensors_done, p.tensors_total
            ),
        })
        .collect()
}

fn step(run: MergeRun, event: MergeEvent, cancelled: bool, s: &(MergeConfig, ParentRegistry, TensorMergePlan, Vec<String>)) -> (MergeRun, MergeAction) {
    advance(run, event, cancelled, &s.0, &s.2, &s.1)
}

#[test]
fn a_merge_runs_through_its_stages() {
    let mut s = setup(MergeMethod::TaskArithmetic, OutputFormat::SafeTensors);
    s.0.base_parent_id = Some(s.3[1].clone());
    let (run, action) = begin(&s.2);
    assert_eq!(run.stage, MergeStage::Validating);
    assert_eq!(run.total_ops, 2);
    assert_eq!(
        phases(&action),
        vec![
            "phase:validating:Checking compatibility".to_string(),
            "progress:validating:Fixed(2):Validating merge configuration...:None:0/2".to_string(),
        ]
    );
    assert!(matches!(action.work, Work::Nothing));

    let (run, action) = step(run, MergeEvent::Done, false, &s);
    assert_eq!(run.stage, MergeStage::Planning);
    assert_eq!(
        phases(&action),
        vec![
            "phase:planning:Pre-computing tensor offsets".to_string(),
            "progress:planning:Fixed(7):Plan: 2 tensors, 28 B estimated output:None:0/2".to_string(),
        ]
    );

    let (run, action) = step(run, MergeEvent::Done, false, &s);
    assert_eq!(run.stage, MergeStage::Opening);
    assert_eq!(phases(&action), vec!["phase:merging:Processing tensors".to_string()]);
    match &action.work {
        Work::OpenWriter { setup: WriterSetup::SafeTensors { directory, file_name }, manifest } => {
            assert_eq!(directory, "/out/merged");
            assert_eq!(file_name, "model.safetensors");
            assert_eq!(manifest.tensors.len(), 2);
            assert_eq!(manifest.total_data_bytes, 28);
        }
        other => panic!("unexpected {:?}", other),
    }

    let opened = MergeEvent::Opened {
        file_path: "/out/merged/model.safetensors".to_string(),
        created_directory: Some("/out/merged".to_string()),
    };
    let (run, action) = step(run, opened, false, &s);
    assert_eq!(run.created_directory.as_deref(), Some("/out/merged"));
    assert_eq!(run.stage, MergeStage::Merging);
    assert_eq!(run.tensors_done, 0);
    assert_eq!(
        phases(&action),
        vec!["progress:merging:Merging:Merging shared.w (2 parents):Some(\"shared.w\"):0/2".to_string()]
    );
    match &action.work {
        Work::MergeTensors { tensor_name, sources, base, projection } => {
            assert_eq!(tensor_name, "shared.w");
            assert_eq!(sources.len(), 2);
            assert_eq!((sources[0].parent, sources[0].weight_bits), (0, 0.25f64.to_bits()));
            assert_eq!((sources[1].parent, sources[1].weight_bits), (1, 0.75f64.to_bits()));
            // The base tensor is that of the configured base parent.
            assert_eq!(*base, BaseTensor::FromParent(1));
            assert_eq!(projection.as_deref(), Some("zero_padding"));
        }
        other => panic!("unexpected {:?}", other),
    }

    let (run, action) = step(run, MergeEvent::Done, false, &s);
    assert_eq!(run.tensors_done, 1);
    assert_eq!(
        phases(&action),
        vec!["progress:merging:Merging:Copying only_a.w:Some(\"only_a.w\"):1/2".to_string()]
    );
    assert!(matches!(&action.work, Work::CopyTensor { tensor_name, parent: 0 } if tensor_name == "only_a.w"));

    let (run, action) = step(run, MergeEvent::Done, false, &s);
    assert_eq!(run.stage, MergeStage::Finalizing);
    assert_eq!(run.tensors_done, 2);
    assert!(matches!(action.work, Work::FinishWriter));
    assert_eq!(
        phases(&action),
        vec![
            "phase:writing:Finalizing output file".to_string(),
            "progress:writing:Fixed(91):Finalizing 2 tensors...:None:2/2".to_string(),
        ]
    );

    let (run, action) = step(run, MergeEvent::Done, false, &s);
    assert_eq!(run.stage, MergeStage::Copying);
    match &action.work {
        Work::CopyAuxiliary { source, target, files } => {
            // The files of the base parent, which is a directory.
            assert!(matches!(source, Some(Folder::At(p)) if p == "/models/b"));
            assert!(matches!(target, Folder::At(p) if p == "/out/merged"));
            assert_eq!(files, &auxiliary_files());
            assert_eq!(files.len(), 10);
            assert_eq!(files[0], "tokenizer.json");
        }
        other => panic!("unexpected {:?}", other),
    }

    let copied = MergeEvent::Copied { files: vec!["config.json".to_string()] };
    let (run, action) = step(run, copied, false, &s);
    assert_eq!(run.stage, MergeStage::Verifying);
    assert!(matches!(&action.work, Work::MeasureOutput { path } if path == "/out/merged/model.safetensors"));
    assert_eq!(
        phases(&action)[1],
        "progress:verifying:Fixed(97):Verifying output file...:None:2/2"
    );

    let (run, action) = step(run, MergeEvent::Measured { size: 1536 }, false, &s);
    assert_eq!(run.stage, MergeStage::Finished);
    assert_eq!(
        phases(&action),
        vec!["progress:complete:Fixed(100):Merge complete: 1.50 KB:None:2/2".to_string()]
    );
    match action.work {
        Work::Complete { result } => {
            assert_eq!(result.output_path, "/out/merged/model.safetensors");
            assert_eq!(result.output_size, 1536);
            assert_eq!(result.output_size_display, "1.50 KB");
            assert_eq!(result.tensors_written, 2);
            assert_eq!(result.method, "TASK ARITHMETIC");
            assert_eq!(result.copied_files, vec!["config.json".to_string()]);
        }
        other => panic!("unexpected {:?}", other),
    }

    let (run, action) = step(run, MergeEvent::Done, false, &s);
    assert_eq!(run.stage, MergeStage::Finished);
    assert!(matches!(action.work, Work::Abort { error: ModelError::MergeError(ref m), .. } if m == "The merge has ended"));
}

#[test]
fn cancelling_after_the_first_tensor_removes_the_output() {
    let s = setup(MergeMethod::Average, OutputFormat::SafeTensors);
    let (run, _) = begin(&s.2);
    let (run, _) = step(run, MergeEvent::Done, false, &s);
    let (run, _) = step(run, MergeEvent::Done, false, &s);
    let (run, first) = step(run, MergeEvent::Opened { file_path: "/out/merged/model.safetensors".to_string(), created_directory: Some("/out/merged".to_string()) }, false, &s);
    assert!(matches!(first.work, Work::MergeTensors { .. }));
    // The flag is set while the first tensor is being merged.
    let (run, action) = step(run, MergeEvent::Done, true, &s);
    assert_eq!(run.stage, MergeStage::Finished);
    assert!(action.notices.is_empty());
    match action.work {
        Work::Abort { remove_output, remove_directory, error } => {
            assert_eq!(remove_output.as_deref(), Some("/out/merged/model.safetensors"));
            assert_eq!(remove_directory.as_deref(), Some("/out/merged"));
            assert!(matches!(error, ModelError::MergeCancelled));
            assert_eq!(error.message(), "Merge cancelled");
        }
        other => panic!("unexpected {:?}", other),
    }
}

#[test]
fn cancelling_early_leaves_nothing_to_remove() {
    let s = setup(MergeMethod::Average, OutputFormat::SafeTensors);
    let (run, _) = begin(&s.2);
    let (run, action) = step(run, MergeEvent::Done, true, &s);
    assert_eq!(run.stage, MergeStage::Finished);
    assert!(matches!(action.work, Work::Abort { remove_output: None, remove_directory: None, error: ModelError::MergeCancelled }));
    let (run, _) = begin(&s.2);
    let (run, _) = step(run, MergeEvent::Done, false, &s);
    let (_, action) = step(run, MergeEvent::Done, true, &s);
    assert!(matches!(action.work, Work::Abort { remove_output: None, remove_directory: None, error: ModelError::MergeCancelled }));
}

#[test]
fn cancelling_before_finalizing_removes_the_output() {
    let s = setup(MergeMethod::Average, OutputFormat::SafeTensors);
    let (run, _) = begin(&s.2);
    let (run, _) = step(run, MergeEvent::Done, false, &s);
    let (run, _) = step(run, MergeEvent::Done, false, &s);
    let (run, _) = step(run, MergeEvent::Opened { file_path: "f".to_string(), created_directory: None }, false, &s);
    let (run, _) = step(run, MergeEvent::Done, false, &s);
    let (_, action) = step(run, MergeEvent::Done, true, &s);
    assert!(matches!(action.work, Work::Abort { remove_output: Some(ref p), remove_directory: None, error: ModelError::MergeCancelled } if p == "f"));
}

#[test]
fn failures_end_the_merge_with_their_error() {
    let s = setup(MergeMethod::Average, OutputFormat::SafeTensors);
    let (run, _) = begin(&s.2);
    let (run, _) = step(run, MergeEvent::Done, false, &s);
    let (run, _) = step(run, MergeEvent::Done, false, &s);
    let (run, action) = step(run, MergeEvent::Failed(ModelError::IoError("disk full".to_string())), false, &s);
    assert_eq!(run.stage, MergeStage::Finished);
    assert!(matches!(action.work, Work::Abort { remove_output: None, remove_directory: None, error: ModelError::IoError(ref m) } if m == "disk full"));
    // An event that does not answer the stage.
    let (run, _) = begin(&s.2);
    let (run, _) = step(run, MergeEvent::Done, false, &s);
    let (run, _) = step(run, MergeEvent::Done, false, &s);
    let (_, action) = step(run, MergeEvent::Measured { size: 1 }, false, &s);
    assert!(matches!(action.work, Work::Abort { error: ModelError::MergeError(ref m), .. } if m == "Unexpected event for this stage of the merge"));
}

#[test]
fn gguf_output_takes_metadata_from_a_gguf_parent() {
    let mut s = setup(MergeMethod::Average, OutputFormat::Gguf);
    s.0.output.path = "/out/merged.gguf".to_string();
    let (run, _) = begin(&s.2);
    let (run, _) = step(run, MergeEvent::Done, false, &s);
    let (_, action) = step(run, MergeEvent::Done, false, &s);
    match &action.work {
        Work::OpenWriter { setup: WriterSetup::Gguf { file_path, model_name, source_gguf, parent, config_dir }, .. } => {
            assert_eq!(file_path, "/out/merged.gguf");
            assert_eq!(model_name, "merged");
            assert_eq!(source_gguf.as_deref(), Some("/models/a.gguf"));
            assert_eq!(*parent, 0);
            assert!(config_dir.is_none());
        }
        other => panic!("unexpected {:?}", other),
    }
    // With the directory parent as base, the metadata is made from its files.
    s.0.base_parent_id = Some(s.3[1].clone());
    let (run, _) = begin(&s.2);
    let (run, _) = step(run, MergeEvent::Done, false, &s);
    let (run, action) = step(run, MergeEvent::Done, false, &s);
    match &action.work {
        Work::OpenWriter { setup: WriterSetup::Gguf { source_gguf, parent, config_dir, .. }, .. } => {
            assert!(source_gguf.is_none());
            assert_eq!(*parent, 1);
            assert!(matches!(config_dir, Some(Folder::At(p)) if p == "/models/b"));
        }
        other => panic!("unexpected {:?}", other),
    }
    let (run, _) = step(run, MergeEvent::Opened { file_path: "/out/merged.gguf".to_string(), created_directory: None }, false, &s);
    let (run, _) = step(run, MergeEvent::Done, false, &s);
    let (run, _) = step(run, MergeEvent::Done, false, &s);
    let (_, action) = step(run, MergeEvent::Done, false, &s);
    match &action.work {
        Work::CopyAuxiliary { source, target, .. } => {
            assert!(matches!(source, Some(Folder::At(p)) if p == "/models/b"));
            assert!(matches!(target, Folder::ParentOf(p) if p == "/out/merged.gguf"));
        }
        other => panic!("unexpected {:?}", other),
    }
    assert!(matches!(find_auxiliary_source(&s.0, &s.1), Some(Folder::At(ref p)) if p == "/models/b"));
}

#[test]
fn unknown_parents_and_synthesis() {
    let mut s = setup(MergeMethod::Ties, OutputFormat::SafeTensors);
    s.0.base_parent_id = Some(s.3[0].clone());
    let mut plan = s.2.clone();
    plan.operations = vec![
        TensorOperation::CopyMetadata { parent_id: s.3[0].clone() },
        TensorOperation::Synthesize { tensor_name: "router".to_string(), shape: vec![2, 1], strategy: "random_init".to_string() },
        TensorOperation::Synthesize { tensor_name: "zeros".to_string(), shape: vec![1], strategy: "other".to_string() },
        TensorOperation::Merge { tensor_name: "shared.w".to_string(), parent_ids: vec![s.3[1].clone(), "ghost".to_string()], weights: vec![1, 2] },
    ];
    plan.total_tensors = 4;
    let s = (s.0, s.1, plan, s.3);
    let (run, _) = begin(&s.2);
    assert_eq!(run.total_ops, 3);
    let (run, _) = step(run, MergeEvent::Done, false, &s);
    let (run, _) = step(run, MergeEvent::Done, false, &s);
    let (run, action) = step(run, MergeEvent::Opened { file_path: "f".to_string(), created_directory: None }, false, &s);
    assert_eq!(run.next_op, 1);
    assert!(matches!(&action.work, Work::SynthesizeTensor { tensor_name, shape, random: true } if tensor_name == "router" && shape == &vec![2usize, 1]));
    assert_eq!(phases(&action), vec!["progress:merging:Merging:Synthesizing router:Some(\"router\"):0/3".to_string()]);
    let (run, action) = step(run, MergeEvent::Done, false, &s);
    assert!(matches!(&action.work, Work::SynthesizeTensor { random: false, .. }));
    let (run, action) = step(run, MergeEvent::Done, false, &s);
    assert_eq!(run.stage, MergeStage::Finished);
    assert_eq!(phases(&action).len(), 1);
    assert!(matches!(action.work, Work::Abort { remove_output: Some(ref f), remove_directory: None, error: ModelError::ParentNotFound(ref id) } if id == "ghost" && f == "f"));
    assert_eq!(Percent::Fixed(7), Percent::Fixed(7));
}

fn refused(s: &(MergeConfig, ParentRegistry, TensorMergePlan, Vec<String>)) -> String {
    let (run, _) = begin(&s.2);
    let (run, action) = step(run, MergeEvent::Done, false, s);
    assert_eq!(run.stage, MergeStage::Finished);
    assert!(action.notices.is_empty());
    match action.work {
        Work::Abort { remove_output: None, remove_directory: None, error: ModelError::MergeError(m) } => m,
        other => panic!("unexpected {:?}", other),
    }
}

#[test]
fn a_missing_base_parent_is_refused_before_anything_is_made() {
    for method in [MergeMethod::TaskArithmetic, MergeMethod::Dare, MergeMethod::Ties, MergeMethod::Della] {
        assert!(method.requires_base());
        let mut s = setup(method, OutputFormat::SafeTensors);
        assert_eq!(refused(&s), format!("{} requires a base model", method.display_name()));
        s.0.base_parent_id = Some("ghost".to_string());
        assert_eq!(refused(&s), "Parent 'ghost' not found");
        s.0.base_parent_id = Some(s.3[0].clone());
        let (run, _) = begin(&s.2);
        let (run, action) = step(run, MergeEvent::Done, false, &s);
        assert_eq!(run.stage, MergeStage::Planning);
        assert!(matches!(action.work, Work::Nothing));
    }
}

#[test]
fn too_few_parents_are_refused_before_anything_is_made() {
    for method in MergeMethod::all() {
        let mut s = setup(*method, OutputFormat::Gguf);
        s.0.base_parent_id = Some(s.3[0].clone());
        s.0.parents.truncate(method.min_parents() - 1);
        assert_eq!(
            refused(&s),
            format!("{} requires at least {} parents", method.display_name(), method.min_parents())
        );
        s.0.parents.clear();
        assert!(refused(&s).contains("requires at least"));
    }
}

#[test]
fn a_merge_operation_without_parents_is_refused() {
    let mut s = setup(MergeMethod::Average, OutputFormat::SafeTensors);
    s.2.operations.insert(
        0,
        TensorOperation::Merge { tensor_name: "shared.w".to_string(), parent_ids: vec![], weights: vec![] },
    );
    assert!(!plan_has_sources(&s.2));
    assert_eq!(refused(&s), "A merge operation names no parent");
}

#[test]
fn a_failure_after_the_output_is_open_removes_what_was_made() {
    let s = setup(MergeMethod::Average, OutputFormat::SafeTensors);
    let opened = || MergeEvent::Opened {
        file_path: "/out/merged/model.safetensors".to_string(),
        created_directory: Some("/out/merged".to_string()),
    };
    let failed = || MergeEvent::Failed(ModelError::IoError("disk full".to_string()));
    // The events that lead to each stage behind the opening of the output.
    let courses: Vec<Vec<MergeEvent>> = vec![
        vec![opened()],
        vec![opened(), MergeEvent::Done],
        vec![opened(), MergeEvent::Done, MergeEvent::Done],
        vec![opened(), MergeEvent::Done, MergeEvent::Done, MergeEvent::Done],
        vec![opened(), MergeEvent::Done, MergeEvent::Done, MergeEvent::Done, MergeEvent::Copied { files: vec![] }],
    ];
    for course in courses {
        let (run, _) = begin(&s.2);
        let (run, _) = step(run, MergeEvent::Done, false, &s);
        let (mut run, _) = step(run, MergeEvent::Done, false, &s);
        for event in course {
            let (next, action) = step(run, event, false, &s);
            assert!(!matches!(action.work, Work::Abort { .. }));
            run = next;
        }
        let stage = run.stage;
        let (run, action) = step(run, failed(), false, &s);
        assert_eq!(run.stage, MergeStage::Finished);
        match action.work {
            Work::Abort { remove_output, remove_directory, error } => {
                assert_eq!(remove_output.as_deref(), Some("/out/merged/model.safetensors"), "{:?}", stage);
                assert_eq!(remove_directory.as_deref(), Some("/out/merged"), "{:?}", stage);
                assert_eq!(error.message(), "Cannot read file: disk full");
            }
            other => panic!("unexpected {:?}", other),
        }
    }
}
