//! The saved connection settings: what is accepted when they are read back,
//! written, or removed.
use crate::connection::{api_base_outcome, company_id_outcome, normalize_api_base, normalize_company_id};
use crate::dto::{ConfigView, PaperclipConfig};
use crate::error::{invalid, unit_result_view, AppError, AppErrorView};
use vstd::prelude::*;

verus! {

/// The largest settings file the bridge reads or writes: 16 KiB.
pub const MAX_CONFIG_BYTES: u64 = 16384;

/// A result that carries a connection, taken by its view.
pub open spec fn config_result_view(r: &Result<PaperclipConfig, AppError>) -> Result<
    ConfigView,
    AppErrorView,
> {
    match r {
        Ok(c) => Ok(c@),
        Err(e) => Err(e@),
    }
}

/// What `normalize_config` answers for the saved connection `c`: both fields
/// normalised again, the server URL checked first.
pub open spec fn config_outcome(c: ConfigView) -> Result<ConfigView, AppErrorView> {
    match api_base_outcome(c.api_base_url) {
        Err(e) => Err(e),
        Ok(base) => match company_id_outcome(c.company_id) {
            Err(e) => Err(e),
            Ok(id) => Ok(ConfigView { api_base_url: base, company_id: id }),
        },
    }
}

/// Normalises a connection read back from disk, so that a file edited by
/// hand cannot smuggle in a non-HTTPS server or a malformed company id.
pub fn normalize_config(config: &PaperclipConfig) -> (r: Result<PaperclipConfig, AppError>)
    ensures
        config_result_view(&r) == config_outcome(config@),
{
    let api_base_url = normalize_api_base(config.api_base_url.as_str())?;
    let company_id = normalize_company_id(config.company_id.as_str())?;
    Ok(PaperclipConfig { api_base_url, company_id })
}

pub open spec fn msg_config_too_large() -> Seq<char> {
    "Paperclip connection settings exceed the size limit."@
}

/// Accepts encoded settings of `len` bytes only up to 16 KiB.
pub fn check_config_size(len: usize) -> (r: Result<(), AppError>)
    ensures
        len as u64 > MAX_CONFIG_BYTES ==> unit_result_view(&r) == Err::<(), AppErrorView>(
            AppErrorView::InvalidArgument(msg_config_too_large()),
        ),
        len as u64 <= MAX_CONFIG_BYTES ==> r is Ok,
{
    if len as u64 > MAX_CONFIG_BYTES {
        Err(invalid("Paperclip connection settings exceed the size limit."))
    } else {
        Ok(())
    }
}

/// How removing the settings file went.
pub enum FileRemoval {
    Removed,
    NotFound,
    Failed,
}

/// What a removal of the settings file means: a file that was already gone
/// counts as removed.
pub fn config_removal_outcome(removal: FileRemoval) -> (r: Result<(), AppError>)
    ensures
        match removal {
            FileRemoval::Failed => unit_result_view(&r) == Err::<(), AppErrorView>(
                AppErrorView::Io("Paperclip connection settings could not be removed."@),
            ),
            _ => r is Ok,
        },
{
    match removal {
        FileRemoval::Failed => Err(
            AppError::Io {
                message: "Paperclip connection settings could not be removed.".to_owned(),
            },
        ),
        _ => Ok(()),
    }
}

/// The error for a settings file whose existence could not be checked.
pub fn config_uninspectable() -> (e: AppError)
    ensures
        e@ == AppErrorView::Io("could not inspect Paperclip connection settings"@),
{
    AppError::Io { message: "could not inspect Paperclip connection settings".to_owned() }
}

/// The error for a settings file that does not decode.
pub fn config_undecodable() -> (e: AppError)
    ensures
        e@ == AppErrorView::Internal(
            "Saved Paperclip connection is invalid; reconnect to repair it."@,
        ),
{
    AppError::Internal {
        message: "Saved Paperclip connection is invalid; reconnect to repair it.".to_owned(),
    }
}

/// The error for settings that could not be encoded.
pub fn config_unencodable() -> (e: AppError)
    ensures
        e@ == AppErrorView::Internal("Paperclip connection settings could not be encoded."@),
{
    AppError::Internal { message: "Paperclip connection settings could not be encoded.".to_owned() }
}

} // verus!
