//! The document model: plain data structures for a resume and its sections,
//! together with their mathematical views.
//!
//! Every structure is pure data with public fields and no behaviour beyond
//! cloning and default construction.  Contracts elsewhere in the crate speak
//! about these structures through their views: structures of `Seq<char>`,
//! sequences and plain values.
//!
//! Each field has one canonical shape: skills are an ordered list of rated
//! skills, and project dates are optional calendar dates.

use vstd::prelude::*;

verus! {

// ---------------------------------------------------------------------------
// Themes
// ---------------------------------------------------------------------------

/// The closed set of presentation themes a resume can be rendered with.
#[derive(Clone, Copy, Debug, PartialEq, Eq, Structural)]
pub enum ResumeTheme {
    Professional,
    Minimal,
    Creative,
    Modern,
}

impl ResumeTheme {
    /// The display name of a theme.
    pub open spec fn spec_name(self) -> Seq<char> {
        match self {
            ResumeTheme::Professional => "Professional"@,
            ResumeTheme::Minimal => "Minimal"@,
            ResumeTheme::Creative => "Creative"@,
            ResumeTheme::Modern => "Modern"@,
        }
    }

    /// Returns the display name of this theme.
    pub fn name(&self) -> (r: &'static str)
        ensures
            r@ == self.spec_name(),
    {
        match self {
            ResumeTheme::Professional => "Professional",
            ResumeTheme::Minimal => "Minimal",
            ResumeTheme::Creative => "Creative",
            ResumeTheme::Modern => "Modern",
        }
    }

    /// Returns every theme, in a fixed presentation order.
    pub fn all() -> (r: Vec<ResumeTheme>)
        ensures
            r@ == seq![
                ResumeTheme::Professional,
                ResumeTheme::Minimal,
                ResumeTheme::Creative,
                ResumeTheme::Modern,
            ],
    {
        let mut v: Vec<ResumeTheme> = Vec::new();
        v.push(ResumeTheme::Professional);
        v.push(ResumeTheme::Minimal);
        v.push(ResumeTheme::Creative);
        v.push(ResumeTheme::Modern);
        proof {
            assert(v@ =~= seq![
                ResumeTheme::Professional,
                ResumeTheme::Minimal,
                ResumeTheme::Creative,
                ResumeTheme::Modern,
            ]);
        }
        v
    }
}

impl Default for ResumeTheme {
    /// A new document starts with the professional theme.
    fn default() -> (r: Self)
        ensures
            r == ResumeTheme::Professional,
    {
        ResumeTheme::Professional
    }
}

// ---------------------------------------------------------------------------
// Calendar dates
// ---------------------------------------------------------------------------

/// A calendar date held as plain year, month and day numbers.
///
/// The core does not validate dates; they are carried for presentation.
#[derive(Clone, Copy, Debug, PartialEq, Eq, Structural)]
pub struct Date {
    pub year: u32,
    pub month: u8,
    pub day: u8,
}

// ---------------------------------------------------------------------------
// Personal information
// ---------------------------------------------------------------------------

/// The personal-information section: a flat record of free-text fields.
#[derive(Debug, PartialEq, Eq)]
pub struct PersonalInfo {
    pub name: String,
    pub email: String,
    pub phone: String,
    pub website: String,
    pub linkedin: String,
    pub github: String,
    pub location: String,
    pub summary: String,
}

/// The mathematical view of [`PersonalInfo`].
#[verifier::ext_equal]
pub struct PersonalInfoView {
    pub name: Seq<char>,
    pub email: Seq<char>,
    pub phone: Seq<char>,
    pub website: Seq<char>,
    pub linkedin: Seq<char>,
    pub github: Seq<char>,
    pub location: Seq<char>,
    pub summary: Seq<char>,
}

impl PersonalInfoView {
    /// The view of the section with every field empty.
    pub open spec fn empty() -> PersonalInfoView {
        PersonalInfoView {
            name: Seq::empty(),
            email: Seq::empty(),
            phone: Seq::empty(),
            website: Seq::empty(),
            linkedin: Seq::empty(),
            github: Seq::empty(),
            location: Seq::empty(),
            summary: Seq::empty(),
        }
    }
}

impl View for PersonalInfo {
    type V = PersonalInfoView;

    open spec fn view(&self) -> PersonalInfoView {
        PersonalInfoView {
            name: self.name@,
            email: self.email@,
            phone: self.phone@,
            website: self.website@,
            linkedin: self.linkedin@,
            github: self.github@,
            location: self.location@,
            summary: self.summary@,
        }
    }
}

impl DeepView for PersonalInfo {
    type V = PersonalInfoView;

    open spec fn deep_view(&self) -> PersonalInfoView {
        self.view()
    }
}

impl Clone for PersonalInfo {
    fn clone(&self) -> (r: Self)
        ensures
            r == *self,
    {
        PersonalInfo {
            name: self.name.clone(),
            email: self.email.clone(),
            phone: self.phone.clone(),
            website: self.website.clone(),
            linkedin: self.linkedin.clone(),
            github: self.github.clone(),
            location: self.location.clone(),
            summary: self.summary.clone(),
        }
    }
}

impl Default for PersonalInfo {
    fn default() -> (r: Self)
        ensures
            r@ == PersonalInfoView::empty(),
    {
        let r = PersonalInfo {
            name: String::new(),
            email: String::new(),
            phone: String::new(),
            website: String::new(),
            linkedin: String::new(),
            github: String::new(),
            location: String::new(),
            summary: String::new(),
        };
        proof {
            assert(r@ =~= PersonalInfoView::empty());
        }
        r
    }
}

// ---------------------------------------------------------------------------
// Education
// ---------------------------------------------------------------------------

/// One education entry.  Dates are free text and not validated by the core.
#[derive(Debug, PartialEq, Eq)]
pub struct Education {
    pub institution: String,
    pub degree: String,
    pub field_of_study: String,
    pub start_date: String,
    pub end_date: String,
    pub location: String,
    pub description: String,
    pub gpa: String,
}

/// The mathematical view of [`Education`].
#[verifier::ext_equal]
pub struct EducationView {
    pub institution: Seq<char>,
    pub degree: Seq<char>,
    pub field_of_study: Seq<char>,
    pub start_date: Seq<char>,
    pub end_date: Seq<char>,
    pub location: Seq<char>,
    pub description: Seq<char>,
    pub gpa: Seq<char>,
}

impl View for Education {
    type V = EducationView;

    open spec fn view(&self) -> EducationView {
        EducationView {
            institution: self.institution@,
            degree: self.degree@,
            field_of_study: self.field_of_study@,
            start_date: self.start_date@,
            end_date: self.end_date@,
            location: self.location@,
            description: self.description@,
            gpa: self.gpa@,
        }
    }
}

impl DeepView for Education {
    type V = EducationView;

    open spec fn deep_view(&self) -> EducationView {
        self.view()
    }
}

impl Clone for Education {
    fn clone(&self) -> (r: Self)
        ensures
            r == *self,
    {
        Education {
            institution: self.institution.clone(),
            degree: self.degree.clone(),
            field_of_study: self.field_of_study.clone(),
            start_date: self.start_date.clone(),
            end_date: self.end_date.clone(),
            location: self.location.clone(),
            description: self.description.clone(),
            gpa: self.gpa.clone(),
        }
    }
}

// ---------------------------------------------------------------------------
// Experience
// ---------------------------------------------------------------------------

/// One work-experience entry.  `is_current` marks an entry with no end date
/// semantically, though the `end_date` text may still be populated.
#[derive(Debug, PartialEq, Eq)]
pub struct Experience {
    pub company: String,
    pub position: String,
    pub start_date: String,
    pub end_date: String,
    pub location: String,
    pub description: String,
    pub achievements: Vec<String>,
    pub is_current: bool,
}

/// The mathematical view of [`Experience`].
#[verifier::ext_equal]
pub struct ExperienceView {
    pub company: Seq<char>,
    pub position: Seq<char>,
    pub start_date: Seq<char>,
    pub end_date: Seq<char>,
    pub location: Seq<char>,
    pub description: Seq<char>,
    pub achievements: Seq<Seq<char>>,
    pub is_current: bool,
}

impl View for Experience {
    type V = ExperienceView;

    open spec fn view(&self) -> ExperienceView {
        ExperienceView {
            company: self.company@,
            position: self.position@,
            start_date: self.start_date@,
            end_date: self.end_date@,
            location: self.location@,
            description: self.description@,
            achievements: self.achievements.deep_view(),
            is_current: self.is_current,
        }
    }
}

impl DeepView for Experience {
    type V = ExperienceView;

    open spec fn deep_view(&self) -> ExperienceView {
        self.view()
    }
}

impl Clone for Experience {
    fn clone(&self) -> (r: Self)
        ensures
            r@ == self@,
    {
        let r = Experience {
            company: self.company.clone(),
            position: self.position.clone(),
            start_date: self.start_date.clone(),
            end_date: self.end_date.clone(),
            location: self.location.clone(),
            description: self.description.clone(),
            achievements: self.achievements.clone(),
            is_current: self.is_current,
        };
        proof {
            assert(r.achievements@ =~= self.achievements@);
            assert(r.achievements.deep_view() =~= self.achievements.deep_view());
            assert(r@ =~= self@);
        }
        r
    }
}

// ---------------------------------------------------------------------------
// Skills
// ---------------------------------------------------------------------------

/// One rated skill: a name and a proficiency level from 0 to 5.
#[derive(Debug, PartialEq, Eq)]
pub struct Skill {
    pub name: String,
    pub level: u8,
}

/// The mathematical view of [`Skill`].
#[verifier::ext_equal]
pub struct SkillView {
    pub name: Seq<char>,
    pub level: u8,
}

impl View for Skill {
    type V = SkillView;

    open spec fn view(&self) -> SkillView {
        SkillView { name: self.name@, level: self.level }
    }
}

impl DeepView for Skill {
    type V = SkillView;

    open spec fn deep_view(&self) -> SkillView {
        self.view()
    }
}

impl Clone for Skill {
    fn clone(&self) -> (r: Self)
        ensures
            r == *self,
    {
        Skill { name: self.name.clone(), level: self.level }
    }
}

/// The skills section: an ordered list of rated skills.
#[derive(Debug, PartialEq, Eq)]
pub struct Skills {
    pub skill_list: Vec<Skill>,
}

/// The mathematical view of [`Skills`].
#[verifier::ext_equal]
pub struct SkillsView {
    pub skill_list: Seq<SkillView>,
}

impl SkillsView {
    /// The view of the section with no skills.
    pub open spec fn empty() -> SkillsView {
        SkillsView { skill_list: Seq::empty() }
    }
}

impl View for Skills {
    type V = SkillsView;

    open spec fn view(&self) -> SkillsView {
        SkillsView { skill_list: self.skill_list.deep_view() }
    }
}

impl DeepView for Skills {
    type V = SkillsView;

    open spec fn deep_view(&self) -> SkillsView {
        self.view()
    }
}

impl Clone for Skills {
    fn clone(&self) -> (r: Self)
        ensures
            r@ == self@,
    {
        let r = Skills { skill_list: self.skill_list.clone() };
        proof {
            assert(r.skill_list@ =~= self.skill_list@);
            assert(r.skill_list.deep_view() =~= self.skill_list.deep_view());
            assert(r@ =~= self@);
        }
        r
    }
}

impl Default for Skills {
    fn default() -> (r: Self)
        ensures
            r@ == SkillsView::empty(),
    {
        let r = Skills { skill_list: Vec::new() };
        proof {
            assert(r.skill_list.deep_view() =~= Seq::<SkillView>::empty());
            assert(r@ =~= SkillsView::empty());
        }
        r
    }
}

// ---------------------------------------------------------------------------
// Projects
// ---------------------------------------------------------------------------

/// One project entry, with optional calendar dates.
#[derive(Debug, PartialEq, Eq)]
pub struct Project {
    pub name: String,
    pub description: String,
    pub start_date: Option<Date>,
    pub end_date: Option<Date>,
    pub technologies: Vec<String>,
    pub url: String,
    pub achievements: Vec<String>,
}

/// The mathematical view of [`Project`].
#[verifier::ext_equal]
pub struct ProjectView {
    pub name: Seq<char>,
    pub description: Seq<char>,
    pub start_date: Option<Date>,
    pub end_date: Option<Date>,
    pub technologies: Seq<Seq<char>>,
    pub url: Seq<char>,
    pub achievements: Seq<Seq<char>>,
}

impl View for Project {
    type V = ProjectView;

    open spec fn view(&self) -> ProjectView {
        ProjectView {
            name: self.name@,
            description: self.description@,
            start_date: self.start_date,
            end_date: self.end_date,
            technologies: self.technologies.deep_view(),
            url: self.url@,
            achievements: self.achievements.deep_view(),
        }
    }
}

impl DeepView for Project {
    type V = ProjectView;

    open spec fn deep_view(&self) -> ProjectView {
        self.view()
    }
}

impl Clone for Project {
    fn clone(&self) -> (r: Self)
        ensures
            r@ == self@,
    {
        let r = Project {
            name: self.name.clone(),
            description: self.description.clone(),
            start_date: self.start_date,
            end_date: self.end_date,
            technologies: self.technologies.clone(),
            url: self.url.clone(),
            achievements: self.achievements.clone(),
        };
        proof {
            assert(r.technologies@ =~= self.technologies@);
            assert(r.technologies.deep_view() =~= self.technologies.deep_view());
            assert(r.achievements@ =~= self.achievements@);
            assert(r.achievements.deep_view() =~= self.achievements.deep_view());
            assert(r@ =~= self@);
        }
        r
    }
}

// ---------------------------------------------------------------------------
// The document
// ---------------------------------------------------------------------------

/// The full resume document: one personal-information record, three ordered
/// list sections, one skills value and one theme.
#[derive(Debug, PartialEq, Eq)]
pub struct Resume {
    pub personal_info: PersonalInfo,
    pub education: Vec<Education>,
    pub experience: Vec<Experience>,
    pub skills: Skills,
    pub projects: Vec<Project>,
    pub theme: ResumeTheme,
}

/// The mathematical view of a [`Resume`].
#[verifier::ext_equal]
pub struct ResumeView {
    pub personal_info: PersonalInfoView,
    pub education: Seq<EducationView>,
    pub experience: Seq<ExperienceView>,
    pub skills: SkillsView,
    pub projects: Seq<ProjectView>,
    pub theme: ResumeTheme,
}

impl ResumeView {
    /// The view of a freshly created document: every field at its zero value.
    pub open spec fn empty() -> ResumeView {
        ResumeView {
            personal_info: PersonalInfoView::empty(),
            education: Seq::empty(),
            experience: Seq::empty(),
            skills: SkillsView::empty(),
            projects: Seq::empty(),
            theme: ResumeTheme::Professional,
        }
    }
}

impl View for Resume {
    type V = ResumeView;

    open spec fn view(&self) -> ResumeView {
        ResumeView {
            personal_info: self.personal_info@,
            education: self.education.deep_view(),
            experience: self.experience.deep_view(),
            skills: self.skills@,
            projects: self.projects.deep_view(),
            theme: self.theme,
        }
    }
}

impl DeepView for Resume {
    type V = ResumeView;

    open spec fn deep_view(&self) -> ResumeView {
        self.view()
    }
}

impl Clone for Resume {
    fn clone(&self) -> (r: Self)
        ensures
            r@ == self@,
    {
        let r = Resume {
            personal_info: self.personal_info.clone(),
            education: self.education.clone(),
            experience: self.experience.clone(),
            skills: self.skills.clone(),
            projects: self.projects.clone(),
            theme: self.theme,
        };
        proof {
            assert(r.education@ =~= self.education@);
            assert(r.education.deep_view() =~= self.education.deep_view());
            assert(r.experience.deep_view() =~= self.experience.deep_view());
            assert(r.projects.deep_view() =~= self.projects.deep_view());
            assert(r@ =~= self@);
        }
        r
    }
}

impl Default for Resume {
    fn default() -> (r: Self)
        ensures
            r@ == ResumeView::empty(),
    {
        let r = Resume {
            personal_info: PersonalInfo::default(),
            education: Vec::new(),
            experience: Vec::new(),
            skills: Skills::default(),
            projects: Vec::new(),
            theme: ResumeTheme::Professional,
        };
        proof {
            assert(r.education.deep_view() =~= Seq::<EducationView>::empty());
            assert(r.experience.deep_view() =~= Seq::<ExperienceView>::empty());
            assert(r.projects.deep_view() =~= Seq::<ProjectView>::empty());
            assert(r@ =~= ResumeView::empty());
        }
        r
    }
}

} // verus!
