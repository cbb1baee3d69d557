//! Image detection and subject-name derivation.

use vstd::prelude::*;
use vstd::string::StrSliceExecFns;
use vstd::string::StringExecFns;

use crate::entry::EntryResult;
use crate::errors::ErrorModel;
use crate::errors::ProcessingError;
use crate::paths::extension_of;
use crate::paths::file_stem;
use crate::paths::parent;
use crate::paths::spec_extension;
use crate::paths::spec_file_stem;
use crate::paths::spec_parent;
use crate::paths::str_eq;

verus! {

/// A path names an image when its extension is exactly `jpg`, `jpeg` or
/// `png`; the match is case-sensitive, and a file without an extension is
/// not an image.
pub open spec fn spec_is_image(path: Seq<char>) -> bool {
    ||| spec_extension(path) == Some("jpg"@)
    ||| spec_extension(path) == Some("jpeg"@)
    ||| spec_extension(path) == Some("png"@)
}

/// Whether the file at `path` is one of the accepted image kinds.
pub fn is_image(path: &str) -> (r: bool)
    ensures
        r == spec_is_image(path@),
{
    match extension_of(path) {
        Some(ext) => str_eq(ext, "jpg") || str_eq(ext, "jpeg") || str_eq(ext, "png"),
        None => false,
    }
}

/// The subject name a group of entries stands for.
///
/// The name comes from the group's first entry: the folder name of a
/// directory marker, or the name of the enclosing folder of a file.  An
/// empty group, a first entry that is an in-band traversal error, a path
/// without a parent where one is needed, or a folder whose name comes out
/// empty all fail the derivation.
pub open spec fn spec_group_name(group: Seq<EntryResult>) -> Result<Seq<char>, ErrorModel> {
    if group.len() == 0 {
        Result::Err(ErrorModel::EmptyGroup)
    } else {
        match group[0] {
            Result::Err(m) => Result::Err(ErrorModel::EntryUnreadable(m@)),
            Result::Ok(e) => {
                if e.is_dir {
                    let st = spec_file_stem(e.path@);
                    if st.len() == 0 {
                        Result::Err(ErrorModel::FolderNameNotFound(e.path@))
                    } else {
                        Result::Ok(st)
                    }
                } else {
                    match spec_parent(e.path@) {
                        None => Result::Err(ErrorModel::ParentFolderNotFound(e.path@)),
                        Some(par) => {
                            let st = spec_file_stem(par);
                            if st.len() == 0 {
                                Result::Err(ErrorModel::FolderNameNotFound(e.path@))
                            } else {
                                Result::Ok(st)
                            }
                        },
                    }
                }
            },
        }
    }
}

/// Derive the subject name of a group, as [`spec_group_name`] states it.
pub fn get_directory_name(group: &Vec<EntryResult>) -> (r: Result<String, ProcessingError>)
    ensures
        match r {
            Ok(name) => spec_group_name(group@) == Result::<Seq<char>, ErrorModel>::Ok(name@),
            Err(e) => spec_group_name(group@) == Result::<Seq<char>, ErrorModel>::Err(e@),
        },
{
    if group.len() == 0 {
        return Err(ProcessingError::EmptyGroup);
    }
    match &group[0] {
        Err(e) => Err(ProcessingError::EntryUnreadable(e.clone())),
        Ok(entry) => {
            if entry.is_dir {
                let stem = file_stem(entry.path.as_str());
                if stem.unicode_len() == 0 {
                    Err(ProcessingError::FolderNameNotFound(entry.path.clone()))
                } else {
                    Ok(String::from_str(stem))
                }
            } else {
                match parent(entry.path.as_str()) {
                    None => Err(ProcessingError::ParentFolderNotFound(entry.path.clone())),
                    Some(par) => {
                        let stem = file_stem(par);
                        if stem.unicode_len() == 0 {
                            Err(ProcessingError::FolderNameNotFound(entry.path.clone()))
                        } else {
                            Ok(String::from_str(stem))
                        }
                    },
                }
            }
        },
    }
}

} // verus!
