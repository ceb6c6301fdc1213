use vstd::prelude::*;

verus! {

/// Every failure the library can report. Paths and underlying causes are
/// carried as plain strings so that callers can render them.
#[derive(Debug, Clone, PartialEq, Eq)]
pub enum XiloError {
    IOErr(String),
    XiloInitFailed(String),
    CannotFindCacheDirPath,
    CannotFindConfigDirPath,
    CannotFindTrashbinPath,
    RippingTrashbinFailed(String),
    RemoveFileFailed { filename: String, reason: String },
    RemoveFilePermanentlyFailed { filename: String, reason: String },
    RemoveDirWithoutRecursiveFlag,
    RemoveDirFailed { dirname: String, reason: String },
    RemoveDirPermanentlyFailed { dirname: String, reason: String },
}

impl XiloError {
    /// The human-readable message of this error, character for character.
    pub open spec fn spec_message(self) -> Seq<char> {
        match self {
            XiloError::IOErr(reason) => reason@,
            XiloError::XiloInitFailed(reason) => "initializing xilo failed. Detail: "@ + reason@,
            XiloError::CannotFindCacheDirPath => "cannot find the cache directory path"@,
            XiloError::CannotFindConfigDirPath => "cannot find the config directory path"@,
            XiloError::CannotFindTrashbinPath => "cannot find the trashbin path"@,
            XiloError::RippingTrashbinFailed(reason) => "removing the trashbin directory failed. Detail: "@
                + reason@,
            XiloError::RemoveFileFailed { filename, reason } => "cannot remove the file "@ + filename@
                + ". Detail: "@ + reason@,
            XiloError::RemoveFilePermanentlyFailed { filename, reason } => "cannot remove the file "@
                + filename@ + " permanently. Detail: "@ + reason@,
            XiloError::RemoveDirWithoutRecursiveFlag => "directory cannot removed without `-r` flag"@,
            XiloError::RemoveDirFailed { dirname, reason } => "cannot remove the directory "@ + dirname@
                + ". Detail: "@ + reason@,
            XiloError::RemoveDirPermanentlyFailed { dirname, reason } => "cannot remove the directory "@
                + dirname@ + " permanently. Detail: "@ + reason@,
        }
    }

    /// Renders the message for this error.
    pub fn message(&self) -> (r: String)
        ensures
            r@ == self.spec_message(),
    {
        match self {
            XiloError::IOErr(reason) => reason.clone(),
            XiloError::XiloInitFailed(reason) => String::from_str(
                "initializing xilo failed. Detail: ",
            ).concat(reason.as_str()),
            XiloError::CannotFindCacheDirPath => String::from_str(
                "cannot find the cache directory path",
            ),
            XiloError::CannotFindConfigDirPath => String::from_str(
                "cannot find the config directory path",
            ),
            XiloError::CannotFindTrashbinPath => String::from_str("cannot find the trashbin path"),
            XiloError::RippingTrashbinFailed(reason) => String::from_str(
                "removing the trashbin directory failed. Detail: ",
            ).concat(reason.as_str()),
            XiloError::RemoveFileFailed { filename, reason } => String::from_str(
                "cannot remove the file ",
            ).concat(filename.as_str()).concat(". Detail: ").concat(reason.as_str()),
            XiloError::RemoveFilePermanentlyFailed { filename, reason } => String::from_str(
                "cannot remove the file ",
            ).concat(filename.as_str()).concat(" permanently. Detail: ").concat(reason.as_str()),
            XiloError::RemoveDirWithoutRecursiveFlag => String::from_str(
                "directory cannot removed without `-r` flag",
            ),
            XiloError::RemoveDirFailed { dirname, reason } => String::from_str(
                "cannot remove the directory ",
            ).concat(dirname.as_str()).concat(". Detail: ").concat(reason.as_str()),
            XiloError::RemoveDirPermanentlyFailed { dirname, reason } => String::from_str(
                "cannot remove the directory ",
            ).concat(dirname.as_str()).concat(" permanently. Detail: ").concat(reason.as_str()),
        }
    }
}

} // verus!
