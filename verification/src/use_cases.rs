//! The document service: the only component that applies structural
//! mutations to a resume document.  It enforces index bounds and delegates
//! persistence to the repository it was constructed with.
//!
//! Every mutating operation either succeeds and changes exactly what its
//! contract states, or fails and leaves the document untouched.

use vstd::prelude::*;
use vstd::pervasive::VecAdditionalExecFns;

use crate::errors::{DocumentError, StorageError};
use crate::models::{
    Education, Experience, PersonalInfo, Project, Resume, ResumeTheme, ResumeView, Skills,
};
use crate::repository::ResumeRepository;

verus! {

/// The use-case layer over a chosen storage adapter.
pub struct ResumeUseCase<R: ResumeRepository> {
    pub repository: R,
}

impl<R: ResumeRepository> ResumeUseCase<R> {
    /// Wraps the given storage adapter.
    pub fn new(repository: R) -> (r: Self)
        ensures
            r.repository == repository,
    {
        ResumeUseCase { repository }
    }

    /// Returns a document with every field at its zero value.  No side
    /// effects.
    pub fn create_new_resume(&self) -> (r: Resume)
        ensures
            r@ == ResumeView::empty(),
    {
        Resume::default()
    }

    /// Persists a full snapshot of `resume`, propagating storage failures.
    pub fn save_resume(&mut self, resume: &Resume) -> (r: Result<(), StorageError>)
        ensures
            r is Ok ==> final(self).repository.snapshot() == Some(resume@),
            r is Err ==> final(self).repository.snapshot() == old(self).repository.snapshot(),
    {
        self.repository.save(resume)
    }

    /// Returns the stored document when a snapshot is present, and a freshly
    /// created default document when none is; absence never fails, and only
    /// absence is absorbed — every other storage failure propagates.
    pub fn load_resume(&self) -> (r: Result<Resume, StorageError>)
        ensures
            !self.repository.present() ==> (r matches Ok(d) && d@ == ResumeView::empty()),
            self.repository.snapshot() matches Some(s) ==> (r matches Ok(d) ==> d@ == s),
            self.repository.present() && self.repository.snapshot() is None ==> r == Err::<
                Resume,
                StorageError,
            >(StorageError::SerializationFailure),
            r is Err ==> self.repository.present(),
            r != Err::<Resume, StorageError>(StorageError::NotFound),
    {
        proof {
            self.repository.snapshot_implies_present();
        }
        if self.repository.has_snapshot() {
            self.repository.load()
        } else {
            Ok(Resume::default())
        }
    }

    /// Unconditionally replaces the personal-information section.
    pub fn update_personal_info(&self, resume: &mut Resume, info: PersonalInfo)
        ensures
            final(resume)@ == (ResumeView { personal_info: info@, ..old(resume)@ }),
    {
        resume.personal_info = info;
        proof {
            assert(resume@ =~= (ResumeView { personal_info: resume.personal_info@, ..old(resume)@ }));
        }
    }

    /// Appends an education entry to the end of the list; always succeeds.
    pub fn add_education(&self, resume: &mut Resume, education: Education)
        ensures
            final(resume)@ == (ResumeView {
                education: old(resume)@.education.push(education@),
                ..old(resume)@
            }),
    {
        let ghost entry = education@;
        resume.education.push(education);
        proof {
            assert(resume.education.deep_view() =~= old(resume).education.deep_view().push(entry));
            assert(resume@ =~= (ResumeView { education: old(resume)@.education.push(entry), ..old(resume)@ }));
        }
    }

    /// Replaces the education entry at `index`; fails with `IndexOutOfBounds`
    /// and leaves the document unchanged when `index` is not within bounds.
    pub fn update_education(&self, resume: &mut Resume, index: usize, education: Education) -> (r:
        Result<(), DocumentError>)
        ensures
            index < old(resume)@.education.len() ==> r is Ok && final(resume)@ == (ResumeView {
                education: old(resume)@.education.update(index as int, education@),
                ..old(resume)@
            }),
            index >= old(resume)@.education.len() ==> r == Err::<(), DocumentError>(
                DocumentError::IndexOutOfBounds,
            ) && *final(resume) == *old(resume),
    {
        let ghost entry = education@;
        if index < resume.education.len() {
            resume.education.set(index, education);
            proof {
                assert(resume.education.deep_view() =~= old(
                    resume,
                ).education.deep_view().update(index as int, entry));
                assert(resume@ =~= (ResumeView {
                    education: old(resume)@.education.update(index as int, entry),
                    ..old(resume)@
                }));
            }
            Ok(())
        } else {
            Err(DocumentError::IndexOutOfBounds)
        }
    }

    /// Removes the education entry at `index`, shifting later entries down by
    /// one; fails with `IndexOutOfBounds` and leaves the document unchanged
    /// when `index` is not within bounds.
    pub fn remove_education(&self, resume: &mut Resume, index: usize) -> (r: Result<
        (),
        DocumentError,
    >)
        ensures
            index < old(resume)@.education.len() ==> r is Ok && final(resume)@ == (ResumeView {
                education: old(resume)@.education.remove(index as int),
                ..old(resume)@
            }),
            index >= old(resume)@.education.len() ==> r == Err::<(), DocumentError>(
                DocumentError::IndexOutOfBounds,
            ) && *final(resume) == *old(resume),
    {
        if index < resume.education.len() {
            resume.education.remove(index);
            proof {
                assert(resume.education.deep_view() =~= old(
                    resume,
                ).education.deep_view().remove(index as int));
                assert(resume@ =~= (ResumeView {
                    education: old(resume)@.education.remove(index as int),
                    ..old(resume)@
                }));
            }
            Ok(())
        } else {
            Err(DocumentError::IndexOutOfBounds)
        }
    }

    /// Appends a work-experience entry to the end of the list; always
    /// succeeds.
    pub fn add_experience(&self, resume: &mut Resume, experience: Experience)
        ensures
            final(resume)@ == (ResumeView {
                experience: old(resume)@.experience.push(experience@),
                ..old(resume)@
            }),
    {
        let ghost entry = experience@;
        resume.experience.push(experience);
        proof {
            assert(resume.experience.deep_view() =~= old(
                resume,
            ).experience.deep_view().push(entry));
            assert(resume@ =~= (ResumeView { experience: old(resume)@.experience.push(entry), ..old(resume)@ }));
        }
    }

    /// Replaces the work-experience entry at `index`; fails with
    /// `IndexOutOfBounds` and leaves the document unchanged when `index` is
    /// not within bounds.
    pub fn update_experience(&self, resume: &mut Resume, index: usize, experience: Experience) -> (
        r: Result<(), DocumentError>)
        ensures
            index < old(resume)@.experience.len() ==> r is Ok && final(resume)@ == (ResumeView {
                experience: old(resume)@.experience.update(index as int, experience@),
                ..old(resume)@
            }),
            index >= old(resume)@.experience.len() ==> r == Err::<(), DocumentError>(
                DocumentError::IndexOutOfBounds,
            ) && *final(resume) == *old(resume),
    {
        let ghost entry = experience@;
        if index < resume.experience.len() {
            resume.experience.set(index, experience);
            proof {
                assert(resume.experience.deep_view() =~= old(
                    resume,
                ).experience.deep_view().update(index as int, entry));
                assert(resume@ =~= (ResumeView {
                    experience: old(resume)@.experience.update(index as int, entry),
                    ..old(resume)@
                }));
            }
            Ok(())
        } else {
            Err(DocumentError::IndexOutOfBounds)
        }
    }

    /// Removes the work-experience entry at `index`, shifting later entries
    /// down by one; fails with `IndexOutOfBounds` and leaves the document
    /// unchanged when `index` is not within bounds.
    pub fn remove_experience(&self, resume: &mut Resume, index: usize) -> (r: Result<
        (),
        DocumentError,
    >)
        ensures
            index < old(resume)@.experience.len() ==> r is Ok && final(resume)@ == (ResumeView {
                experience: old(resume)@.experience.remove(index as int),
                ..old(resume)@
            }),
            index >= old(resume)@.experience.len() ==> r == Err::<(), DocumentError>(
                DocumentError::IndexOutOfBounds,
            ) && *final(resume) == *old(resume),
    {
        if index < resume.experience.len() {
            resume.experience.remove(index);
            proof {
                assert(resume.experience.deep_view() =~= old(
                    resume,
                ).experience.deep_view().remove(index as int));
                assert(resume@ =~= (ResumeView {
                    experience: old(resume)@.experience.remove(index as int),
                    ..old(resume)@
                }));
            }
            Ok(())
        } else {
            Err(DocumentError::IndexOutOfBounds)
        }
    }

    /// Unconditionally replaces the skills section.
    pub fn update_skills(&self, resume: &mut Resume, skills: Skills)
        ensures
            final(resume)@ == (ResumeView { skills: skills@, ..old(resume)@ }),
    {
        resume.skills = skills;
        proof {
            assert(resume@ =~= (ResumeView { skills: resume.skills@, ..old(resume)@ }));
        }
    }

    /// Appends a project entry to the end of the list; always succeeds.
    pub fn add_project(&self, resume: &mut Resume, project: Project)
        ensures
            final(resume)@ == (ResumeView {
                projects: old(resume)@.projects.push(project@),
                ..old(resume)@
            }),
    {
        let ghost entry = project@;
        resume.projects.push(project);
        proof {
            assert(resume.projects.deep_view() =~= old(resume).projects.deep_view().push(entry));
            assert(resume@ =~= (ResumeView { projects: old(resume)@.projects.push(entry), ..old(resume)@ }));
        }
    }

    /// Replaces the project entry at `index`; fails with `IndexOutOfBounds`
    /// and leaves the document unchanged when `index` is not within bounds.
    pub fn update_project(&self, resume: &mut Resume, index: usize, project: Project) -> (r: Result<
        (),
        DocumentError,
    >)
        ensures
            index < old(resume)@.projects.len() ==> r is Ok && final(resume)@ == (ResumeView {
                projects: old(resume)@.projects.update(index as int, project@),
                ..old(resume)@
            }),
            index >= old(resume)@.projects.len() ==> r == Err::<(), DocumentError>(
                DocumentError::IndexOutOfBounds,
            ) && *final(resume) == *old(resume),
    {
        let ghost entry = project@;
        if index < resume.projects.len() {
            resume.projects.set(index, project);
            proof {
                assert(resume.projects.deep_view() =~= old(
                    resume,
                ).projects.deep_view().update(index as int, entry));
                assert(resume@ =~= (ResumeView {
                    projects: old(resume)@.projects.update(index as int, entry),
                    ..old(resume)@
                }));
            }
            Ok(())
        } else {
            Err(DocumentError::IndexOutOfBounds)
        }
    }

    /// Removes the project entry at `index`, shifting later entries down by
    /// one; fails with `IndexOutOfBounds` and leaves the document unchanged
    /// when `index` is not within bounds.
    pub fn remove_project(&self, resume: &mut Resume, index: usize) -> (r: Result<
        (),
        DocumentError,
    >)
        ensures
            index < old(resume)@.projects.len() ==> r is Ok && final(resume)@ == (ResumeView {
                projects: old(resume)@.projects.remove(index as int),
                ..old(resume)@
            }),
            index >= old(resume)@.projects.len() ==> r == Err::<(), DocumentError>(
                DocumentError::IndexOutOfBounds,
            ) && *final(resume) == *old(resume),
    {
        if index < resume.projects.len() {
            resume.projects.remove(index);
            proof {
                assert(resume.projects.deep_view() =~= old(
                    resume,
                ).projects.deep_view().remove(index as int));
                assert(resume@ =~= (ResumeView {
                    projects: old(resume)@.projects.remove(index as int),
                    ..old(resume)@
                }));
            }
            Ok(())
        } else {
            Err(DocumentError::IndexOutOfBounds)
        }
    }

    /// Unconditionally replaces the theme; the last write wins.
    pub fn change_theme(&self, resume: &mut Resume, theme: ResumeTheme)
        ensures
            final(resume)@ == (ResumeView { theme: theme, ..old(resume)@ }),
    {
        resume.theme = theme;
        proof {
            assert(resume@ =~= (ResumeView { theme: theme, ..old(resume)@ }));
        }
    }
}

/// Law: replacing the entry at a valid index `i` leaves exactly that index
/// holding the new entry; the length and every other entry are unchanged.
pub proof fn lemma_update_entry<T>(before: Seq<T>, i: int, entry: T)
    requires
        0 <= i < before.len(),
    ensures
        before.update(i, entry).len() == before.len(),
        before.update(i, entry)[i] == entry,
        forall|k: int| 0 <= k < before.len() && k != i ==> before.update(i, entry)[k] == before[k],
{
}

/// Law: removing the entry at a valid index `i` shortens the list by exactly
/// one and preserves the relative order of all remaining entries.
pub proof fn lemma_remove_entry<T>(before: Seq<T>, i: int)
    requires
        0 <= i < before.len(),
    ensures
        before.remove(i).len() == before.len() - 1,
        forall|k: int| 0 <= k < i ==> before.remove(i)[k] == before[k],
        forall|k: int| i <= k < before.len() - 1 ==> before.remove(i)[k] == before[k + 1],
{
}

} // verus!
