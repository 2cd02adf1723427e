use vstd::prelude::*;

verus! {

/// The errors that the bridge reports to its caller.
#[derive(Debug)]
pub enum AppError {
    InvalidArgument { message: String },
    KeychainUnavailable { message: String },
    Internal { message: String },
    Network { url: String, message: String },
    HttpStatus { url: String, status: u16 },
    Io { message: String },
}

/// An `AppError` with its strings taken as character sequences.
pub enum AppErrorView {
    InvalidArgument(Seq<char>),
    KeychainUnavailable(Seq<char>),
    Internal(Seq<char>),
    Network(Seq<char>, Seq<char>),
    HttpStatus(Seq<char>, u16),
    Io(Seq<char>),
}

impl View for AppError {
    type V = AppErrorView;

    open spec fn view(&self) -> AppErrorView {
        match self {
            AppError::InvalidArgument { message } => AppErrorView::InvalidArgument(message@),
            AppError::KeychainUnavailable { message } => AppErrorView::KeychainUnavailable(message@),
            AppError::Internal { message } => AppErrorView::Internal(message@),
            AppError::Network { url, message } => AppErrorView::Network(url@, message@),
            AppError::HttpStatus { url, status } => AppErrorView::HttpStatus(url@, *status),
            AppError::Io { message } => AppErrorView::Io(message@),
        }
    }
}

/// A result that carries a string, taken as a character sequence.
pub open spec fn string_result_view(r: &Result<String, AppError>) -> Result<Seq<char>, AppErrorView> {
    match r {
        Ok(s) => Ok(s@),
        Err(e) => Err(e@),
    }
}

/// A result that carries nothing on success, with its error taken by its view.
pub open spec fn unit_result_view(r: &Result<(), AppError>) -> Result<(), AppErrorView> {
    match r {
        Ok(()) => Ok(()),
        Err(e) => Err(e@),
    }
}

/// An invalid-argument error carrying `message`.
pub fn invalid(message: &str) -> (e: AppError)
    ensures
        e@ == AppErrorView::InvalidArgument(message@),
{
    AppError::InvalidArgument { message: message.to_owned() }
}

} // verus!
