//! The project that the editor's session works on.

use vstd::prelude::*;
use crate::text::text_of;

verus! {

/// The workspace folder that stands for the project, where the editor named
/// one. It is fixed when the session starts.
#[derive(Clone, Debug)]
pub struct ProjectContext {
    folder: Option<String>,
}

/// The folder that stands for the project among those the editor reports:
/// the first, whatever follows it.
pub open spec fn first_folder(folders: Seq<String>) -> Option<Seq<char>> {
    if folders.len() > 0 {
        Some(folders[0]@)
    } else {
        None
    }
}

/// The project known after asking the editor for its folders: the first
/// folder of an answer, and none where the question failed.
pub open spec fn project_of_reply(reply: Result<Vec<String>, String>) -> Option<Seq<char>> {
    match reply {
        Ok(folders) => first_folder(folders@),
        Err(_) => None,
    }
}

impl View for ProjectContext {
    type V = Option<Seq<char>>;

    closed spec fn view(&self) -> Option<Seq<char>> {
        text_of(self.folder)
    }
}

impl ProjectContext {
    /// No project is known.
    pub fn absent() -> (context: ProjectContext)
        ensures
            context@ is None,
    {
        ProjectContext { folder: None }
    }

    /// The project at `folder`.
    pub fn at(folder: String) -> (context: ProjectContext)
        ensures
            context@ == Some(folder@),
    {
        ProjectContext { folder: Some(folder) }
    }

    /// The project of a session whose workspace folders are `folders`.
    pub fn from_folders(folders: &Vec<String>) -> (context: ProjectContext)
        ensures
            context@ == first_folder(folders@),
    {
        if folders.len() > 0 {
            ProjectContext { folder: Some(folders[0].clone()) }
        } else {
            ProjectContext { folder: None }
        }
    }

    /// The project of a session that asked the editor for its workspace
    /// folders and got `reply`. A failed question leaves the project unknown;
    /// it fails nothing else.
    pub fn from_reply(reply: &Result<Vec<String>, String>) -> (context: ProjectContext)
        ensures
            context@ == project_of_reply(*reply),
    {
        match reply {
            Ok(folders) => ProjectContext::from_folders(folders),
            Err(_) => ProjectContext::absent(),
        }
    }

    /// The folder, where one is known.
    pub fn folder(&self) -> (folder: Option<&String>)
        ensures
            folder is Some <==> self@ is Some,
            folder matches Some(path) ==> self@ == Some(path@),
    {
        self.folder.as_ref()
    }
}

} // verus!
