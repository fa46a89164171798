//! The view-state adapter: holds the single authoritative copy of the
//! current document for the session and exposes one mutator per use case.
//!
//! A failed mutation never corrupts the live document: the operation either
//! succeeds and the live document changes exactly as stated, or it fails,
//! the failure is reported to the caller, and the live document is left
//! unchanged.

use vstd::prelude::*;

use crate::errors::{DocumentError, StorageError};
use crate::models::{
    Education, Experience, PersonalInfo, Project, Resume, ResumeTheme, ResumeView, Skills,
};
use crate::repository::ResumeRepository;
use crate::use_cases::ResumeUseCase;

verus! {

/// The live document and the use-case layer it is mutated through.
pub struct ResumeViewModel<R: ResumeRepository> {
    pub resume: Resume,
    pub use_case: ResumeUseCase<R>,
}

impl<R: ResumeRepository> ResumeViewModel<R> {
    /// Starts a session with a freshly created document.
    pub fn new(use_case: ResumeUseCase<R>) -> (r: Self)
        ensures
            r.resume@ == ResumeView::empty(),
            r.use_case == use_case,
    {
        let resume = use_case.create_new_resume();
        ResumeViewModel { resume, use_case }
    }

    /// Returns a copy of the live document.
    pub fn resume(&self) -> (r: Resume)
        ensures
            r@ == self.resume@,
    {
        self.resume.clone()
    }

    /// Loads the stored document and, on success, makes it the live
    /// document; on failure the live document is unchanged and the failure
    /// is reported to the caller.
    pub fn load(&mut self) -> (r: Result<(), StorageError>)
        ensures
            final(self).use_case == old(self).use_case,
            r is Ok ==> (old(self).use_case.repository.snapshot() matches Some(s)
                ==> final(self).resume@ == s) && (!old(self).use_case.repository.present()
                ==> final(self).resume@ == ResumeView::empty()),
            old(self).use_case.repository.present() && old(
                self,
            ).use_case.repository.snapshot() is None ==> r == Err::<(), StorageError>(
                StorageError::SerializationFailure,
            ),
            r is Err ==> *final(self) == *old(self) && old(self).use_case.repository.present(),
    {
        match self.use_case.load_resume() {
            Ok(d) => {
                self.resume = d;
                Ok(())
            },
            Err(e) => Err(e),
        }
    }

    /// Persists the live document, reporting success or failure.
    pub fn save(&mut self) -> (r: Result<(), StorageError>)
        ensures
            final(self).resume@ == old(self).resume@,
            r is Ok ==> final(self).use_case.repository.snapshot() == Some(old(self).resume@),
            r is Err ==> final(self).use_case.repository.snapshot() == old(
                self,
            ).use_case.repository.snapshot(),
    {
        self.use_case.save_resume(&self.resume)
    }

    /// Replaces the personal-information section of the live document.
    pub fn update_personal_info(&mut self, info: PersonalInfo)
        ensures
            final(self).use_case == old(self).use_case,
            final(self).resume@ == (ResumeView { personal_info: info@, ..old(self).resume@ }),
    {
        self.use_case.update_personal_info(&mut self.resume, info);
    }

    /// Appends an education entry to the live document.
    pub fn add_education(&mut self, education: Education)
        ensures
            final(self).use_case == old(self).use_case,
            final(self).resume@ == (ResumeView {
                education: old(self).resume@.education.push(education@),
                ..old(self).resume@
            }),
    {
        self.use_case.add_education(&mut self.resume, education);
    }

    /// Replaces the education entry at `index`, reporting an out-of-bounds
    /// index and leaving the live document unchanged on failure.
    pub fn update_education(&mut self, index: usize, education: Education) -> (r: Result<
        (),
        DocumentError,
    >)
        ensures
            final(self).use_case == old(self).use_case,
            index < old(self).resume@.education.len() ==> r is Ok && final(self).resume@ == (
            ResumeView {
                education: old(self).resume@.education.update(index as int, education@),
                ..old(self).resume@
            }),
            index >= old(self).resume@.education.len() ==> r == Err::<(), DocumentError>(
                DocumentError::IndexOutOfBounds,
            ) && *final(self) == *old(self),
    {
        self.use_case.update_education(&mut self.resume, index, education)
    }

    /// Removes the education entry at `index`, reporting an out-of-bounds
    /// index and leaving the live document unchanged on failure.
    pub fn remove_education(&mut self, index: usize) -> (r: Result<(), DocumentError>)
        ensures
            final(self).use_case == old(self).use_case,
            index < old(self).resume@.education.len() ==> r is Ok && final(self).resume@ == (
            ResumeView {
                education: old(self).resume@.education.remove(index as int),
                ..old(self).resume@
            }),
            index >= old(self).resume@.education.len() ==> r == Err::<(), DocumentError>(
                DocumentError::IndexOutOfBounds,
            ) && *final(self) == *old(self),
    {
        self.use_case.remove_education(&mut self.resume, index)
    }

    /// Appends a work-experience entry to the live document.
    pub fn add_experience(&mut self, experience: Experience)
        ensures
            final(self).use_case == old(self).use_case,
            final(self).resume@ == (ResumeView {
                experience: old(self).resume@.experience.push(experience@),
                ..old(self).resume@
            }),
    {
        self.use_case.add_experience(&mut self.resume, experience);
    }

    /// Replaces the work-experience entry at `index`, reporting an
    /// out-of-bounds index and leaving the live document unchanged on
    /// failure.
    pub fn update_experience(&mut self, index: usize, experience: Experience) -> (r: Result<
        (),
        DocumentError,
    >)
        ensures
            final(self).use_case == old(self).use_case,
            index < old(self).resume@.experience.len() ==> r is Ok && final(self).resume@ == (
            ResumeView {
                experience: old(self).resume@.experience.update(index as int, experience@),
                ..old(self).resume@
            }),
            index >= old(self).resume@.experience.len() ==> r == Err::<(), DocumentError>(
                DocumentError::IndexOutOfBounds,
            ) && *final(self) == *old(self),
    {
        self.use_case.update_experience(&mut self.resume, index, experience)
    }

    /// Removes the work-experience entry at `index`, reporting an
    /// out-of-bounds index and leaving the live document unchanged on
    /// failure.
    pub fn remove_experience(&mut self, index: usize) -> (r: Result<(), DocumentError>)
        ensures
            final(self).use_case == old(self).use_case,
            index < old(self).resume@.experience.len() ==> r is Ok && final(self).resume@ == (
            ResumeView {
                experience: old(self).resume@.experience.remove(index as int),
                ..old(self).resume@
            }),
            index >= old(self).resume@.experience.len() ==> r == Err::<(), DocumentError>(
                DocumentError::IndexOutOfBounds,
            ) && *final(self) == *old(self),
    {
        self.use_case.remove_experience(&mut self.resume, index)
    }

    /// Replaces the skills section of the live document.
    pub fn update_skills(&mut self, skills: Skills)
        ensures
            final(self).use_case == old(self).use_case,
            final(self).resume@ == (ResumeView { skills: skills@, ..old(self).resume@ }),
    {
        self.use_case.update_skills(&mut self.resume, skills);
    }

    /// Appends a project entry to the live document.
    pub fn add_project(&mut self, project: Project)
        ensures
            final(self).use_case == old(self).use_case,
            final(self).resume@ == (ResumeView {
                projects: old(self).resume@.projects.push(project@),
                ..old(self).resume@
            }),
    {
        self.use_case.add_project(&mut self.resume, project);
    }

    /// Replaces the project entry at `index`, reporting an out-of-bounds
    /// index and leaving the live document unchanged on failure.
    pub fn update_project(&mut self, index: usize, project: Project) -> (r: Result<
        (),
        DocumentError,
    >)
        ensures
            final(self).use_case == old(self).use_case,
            index < old(self).resume@.projects.len() ==> r is Ok && final(self).resume@ == (
            ResumeView {
                projects: old(self).resume@.projects.update(index as int, project@),
                ..old(self).resume@
            }),
            index >= old(self).resume@.projects.len() ==> r == Err::<(), DocumentError>(
                DocumentError::IndexOutOfBounds,
            ) && *final(self) == *old(self),
    {
        self.use_case.update_project(&mut self.resume, index, project)
    }

    /// Removes the project entry at `index`, reporting an out-of-bounds
    /// index and leaving the live document unchanged on failure.
    pub fn remove_project(&mut self, index: usize) -> (r: Result<(), DocumentError>)
        ensures
            final(self).use_case == old(self).use_case,
            index < old(self).resume@.projects.len() ==> r is Ok && final(self).resume@ == (
            ResumeView {
                projects: old(self).resume@.projects.remove(index as int),
                ..old(self).resume@
            }),
            index >= old(self).resume@.projects.len() ==> r == Err::<(), DocumentError>(
                DocumentError::IndexOutOfBounds,
            ) && *final(self) == *old(self),
    {
        self.use_case.remove_project(&mut self.resume, index)
    }

    /// Replaces the theme of the live document; the last write wins.
    pub fn change_theme(&mut self, theme: ResumeTheme)
        ensures
            final(self).use_case == old(self).use_case,
            final(self).resume@ == (ResumeView { theme: theme, ..old(self).resume@ }),
    {
        self.use_case.change_theme(&mut self.resume, theme);
    }
}

} // verus!
