//! The error type shared by parsing, planning and merging.

use vstd::prelude::*;
use crate::text::{decimal_text, push_decimal, push_text, string_of};

verus! {

/// What can go wrong while a model is read, planned or merged.
#[derive(Debug)]
pub enum ModelError {
    FileNotFound(String),
    /// A failed read or write; the text is the operating system's message.
    IoError(String),
    UnsupportedFormat(String),
    ParseError { format: String, reason: String },
    FileTooSmall(u64),
    MergeError(String),
    MergeCancelled,
    IncompatibleModels(String),
    ParentNotFound(String),
    RegistryFull(usize),
    ProfilerError(String),
    /// A failure inside the tensor arithmetic.
    CandleError(String),
    TensorNotFound { tensor_name: String, parent_id: String },
}

/// The value of a `ModelError`, with each text as a sequence of characters.
pub enum ModelErrorView {
    FileNotFound(Seq<char>),
    IoError(Seq<char>),
    UnsupportedFormat(Seq<char>),
    ParseError { format: Seq<char>, reason: Seq<char> },
    FileTooSmall(u64),
    MergeError(Seq<char>),
    MergeCancelled,
    IncompatibleModels(Seq<char>),
    ParentNotFound(Seq<char>),
    RegistryFull(usize),
    ProfilerError(Seq<char>),
    CandleError(Seq<char>),
    TensorNotFound { tensor_name: Seq<char>, parent_id: Seq<char> },
}

impl View for ModelError {
    type V = ModelErrorView;

    open spec fn view(&self) -> ModelErrorView {
        match *self {
            ModelError::FileNotFound(s) => ModelErrorView::FileNotFound(s@),
            ModelError::IoError(s) => ModelErrorView::IoError(s@),
            ModelError::UnsupportedFormat(s) => ModelErrorView::UnsupportedFormat(s@),
            ModelError::ParseError { format, reason } => ModelErrorView::ParseError {
                format: format@,
                reason: reason@,
            },
            ModelError::FileTooSmall(n) => ModelErrorView::FileTooSmall(n),
            ModelError::MergeError(s) => ModelErrorView::MergeError(s@),
            ModelError::MergeCancelled => ModelErrorView::MergeCancelled,
            ModelError::IncompatibleModels(s) => ModelErrorView::IncompatibleModels(s@),
            ModelError::ParentNotFound(s) => ModelErrorView::ParentNotFound(s@),
            ModelError::RegistryFull(n) => ModelErrorView::RegistryFull(n),
            ModelError::ProfilerError(s) => ModelErrorView::ProfilerError(s@),
            ModelError::CandleError(s) => ModelErrorView::CandleError(s@),
            ModelError::TensorNotFound { tensor_name, parent_id } => ModelErrorView::TensorNotFound {
                tensor_name: tensor_name@,
                parent_id: parent_id@,
            },
        }
    }
}

/// The text that describes an error to a reader.
pub open spec fn error_message(e: ModelErrorView) -> Seq<char> {
    match e {
        ModelErrorView::FileNotFound(s) => "File not found: "@ + s,
        ModelErrorView::IoError(s) => "Cannot read file: "@ + s,
        ModelErrorView::UnsupportedFormat(s) => "Unsupported file format: "@ + s,
        ModelErrorView::ParseError { format, reason } => "Invalid "@ + format + " file: "@ + reason,
        ModelErrorView::FileTooSmall(n) => "File too small to be a valid model: "@ + decimal_text(
            n as nat,
        ) + " bytes"@,
        ModelErrorView::MergeError(s) => "Merge error: "@ + s,
        ModelErrorView::MergeCancelled => "Merge cancelled"@,
        ModelErrorView::IncompatibleModels(s) => "Incompatible models: "@ + s,
        ModelErrorView::ParentNotFound(s) => "Parent not found: "@ + s,
        ModelErrorView::RegistryFull(n) => "Registry full: max "@ + decimal_text(n as nat)
            + " parents"@,
        ModelErrorView::ProfilerError(s) => "Profiler error: "@ + s,
        ModelErrorView::CandleError(s) => "Candle error: "@ + s,
        ModelErrorView::TensorNotFound { tensor_name, parent_id } => "Tensor not found: "@
            + tensor_name + " in parent "@ + parent_id,
    }
}

impl ModelError {
    /// The text that describes this error to a reader.
    pub fn message(&self) -> (r: String)
        ensures
            r@ == error_message(self@),
    {
        let mut out: Vec<char> = Vec::new();
        match self {
            ModelError::FileNotFound(s) => {
                push_text(&mut out, "File not found: ");
                push_text(&mut out, s.as_str());
            },
            ModelError::IoError(s) => {
                push_text(&mut out, "Cannot read file: ");
                push_text(&mut out, s.as_str());
            },
            ModelError::UnsupportedFormat(s) => {
                push_text(&mut out, "Unsupported file format: ");
                push_text(&mut out, s.as_str());
            },
            ModelError::ParseError { format, reason } => {
                push_text(&mut out, "Invalid ");
                push_text(&mut out, format.as_str());
                push_text(&mut out, " file: ");
                push_text(&mut out, reason.as_str());
            },
            ModelError::FileTooSmall(n) => {
                push_text(&mut out, "File too small to be a valid model: ");
                push_decimal(&mut out, *n);
                push_text(&mut out, " bytes");
            },
            ModelError::MergeError(s) => {
                push_text(&mut out, "Merge error: ");
                push_text(&mut out, s.as_str());
            },
            ModelError::MergeCancelled => {
                push_text(&mut out, "Merge cancelled");
            },
            ModelError::IncompatibleModels(s) => {
                push_text(&mut out, "Incompatible models: ");
                push_text(&mut out, s.as_str());
            },
            ModelError::ParentNotFound(s) => {
                push_text(&mut out, "Parent not found: ");
                push_text(&mut out, s.as_str());
            },
            ModelError::RegistryFull(n) => {
                push_text(&mut out, "Registry full: max ");
                push_decimal(&mut out, *n as u64);
                push_text(&mut out, " parents");
            },
            ModelError::ProfilerError(s) => {
                push_text(&mut out, "Profiler error: ");
                push_text(&mut out, s.as_str());
            },
            ModelError::CandleError(s) => {
                push_text(&mut out, "Candle error: ");
                push_text(&mut out, s.as_str());
            },
            ModelError::TensorNotFound { tensor_name, parent_id } => {
                push_text(&mut out, "Tensor not found: ");
                push_text(&mut out, tensor_name.as_str());
                push_text(&mut out, " in parent ");
                push_text(&mut out, parent_id.as_str());
            },
        }
        assert(out@ =~= error_message(self@));
        string_of(out.as_slice())
    }
}

} // verus!
