use model_merge::error::ModelError;

#[test]
fn every_error_has_its_message() {
    let cases: Vec<(ModelError, &str)> = vec![
        (ModelError::FileNotFound("/m/a.gguf".into()), "File not found: /m/a.gguf"),
        (ModelError::IoError("permission denied".into()), "Cannot read file: permission denied"),
        (ModelError::UnsupportedFormat("bin".into()), "Unsupported file format: bin"),
        (
            ModelError::ParseError { format: "GGUF".into(), reason: "Unexpected end of file".into() },
            "Invalid GGUF file: Unexpected end of file",
        ),
        (ModelError::FileTooSmall(7), "File too small to be a valid model: 7 bytes"),
        (ModelError::FileTooSmall(0), "File too small to be a valid model: 0 bytes"),
        (ModelError::MergeError("No parents loaded".into()), "Merge error: No parents loaded"),
        (ModelError::MergeCancelled, "Merge cancelled"),
        (ModelError::IncompatibleModels("ranks differ".into()), "Incompatible models: ranks differ"),
        (ModelError::ParentNotFound("p-1".into()), "Parent not found: p-1"),
        (ModelError::RegistryFull(5), "Registry full: max 5 parents"),
        (ModelError::ProfilerError("no data".into()), "Profiler error: no data"),
        (ModelError::CandleError("shape".into()), "Candle error: shape"),
        (
            ModelError::TensorNotFound { tensor_name: "w".into(), parent_id: "p".into() },
            "Tensor not found: w in parent p",
        ),
    ];
    for (error, text) in cases {
        assert_eq!(error.message(), text);
    }
}

#[test]
fn large_numbers_are_written_in_full() {
    assert_eq!(
        ModelError::FileTooSmall(u64::MAX).message(),
        "File too small to be a valid model: 18446744073709551615 bytes"
    );
    assert_eq!(ModelError::MergeError(String::new()).message(), "Merge error: ");
}
