//! Tests for the document model, the use-case layer and the view-state
//! adapter.

use resume_builder::errors::DocumentError;
use resume_builder::models::{
    Date, Education, Experience, PersonalInfo, Project, Resume, ResumeTheme, Skill, Skills,
};
use resume_builder::repository::InMemoryResumeRepository;
use resume_builder::sample::sample_resume;
use resume_builder::use_cases::ResumeUseCase;
use resume_builder::view_model::ResumeViewModel;

fn new_use_case() -> ResumeUseCase<InMemoryResumeRepository> {
    ResumeUseCase::new(InMemoryResumeRepository::new())
}

fn education(institution: &str, degree: &str) -> Education {
    Education {
        institution: institution.to_string(),
        degree: degree.to_string(),
        field_of_study: String::new(),
        start_date: String::new(),
        end_date: String::new(),
        location: String::new(),
        description: String::new(),
        gpa: String::new(),
    }
}

fn experience(company: &str) -> Experience {
    Experience {
        company: company.to_string(),
        position: String::new(),
        start_date: String::new(),
        end_date: String::new(),
        location: String::new(),
        description: String::new(),
        achievements: vec!["shipped".to_string()],
        is_current: false,
    }
}

fn project(name: &str) -> Project {
    Project {
        name: name.to_string(),
        description: String::new(),
        start_date: None,
        end_date: Some(Date { year: 2024, month: 5, day: 17 }),
        technologies: vec!["Rust".to_string()],
        url: String::new(),
        achievements: Vec::new(),
    }
}

#[test]
fn create_new_resume_is_empty() {
    let uc = new_use_case();
    let doc = uc.create_new_resume();
    assert_eq!(doc.personal_info.name, "");
    assert_eq!(doc.personal_info.summary, "");
    assert!(doc.education.is_empty());
    assert!(doc.experience.is_empty());
    assert!(doc.skills.skill_list.is_empty());
    assert!(doc.projects.is_empty());
    assert_eq!(doc.theme, ResumeTheme::Professional);
}

#[test]
fn add_education_to_empty_document() {
    let uc = new_use_case();
    let mut doc = uc.create_new_resume();
    uc.add_education(&mut doc, education("State University", "B.Sc."));
    assert_eq!(doc.education.len(), 1);
    assert_eq!(doc.education[0].institution, "State University");
    assert_eq!(doc.education[0].degree, "B.Sc.");
}

#[test]
fn update_education_replaces_exactly_one_entry() {
    let uc = new_use_case();
    let mut doc = uc.create_new_resume();
    uc.add_education(&mut doc, education("First", "BA"));
    uc.add_education(&mut doc, education("Second", "BS"));
    uc.add_education(&mut doc, education("Third", "MS"));
    let replacement = education("Replacement", "PhD");
    let r = uc.update_education(&mut doc, 1, replacement.clone());
    assert_eq!(r, Ok(()));
    assert_eq!(doc.education.len(), 3);
    assert_eq!(doc.education[0], education("First", "BA"));
    assert_eq!(doc.education[1], replacement);
    assert_eq!(doc.education[2], education("Third", "MS"));
}

#[test]
fn update_out_of_bounds_leaves_document_identical() {
    let uc = new_use_case();
    let mut doc = uc.create_new_resume();
    uc.add_education(&mut doc, education("Only", "BA"));
    let before = doc.clone();
    let r = uc.update_education(&mut doc, 1, education("Nope", "X"));
    assert_eq!(r, Err(DocumentError::IndexOutOfBounds));
    assert_eq!(doc, before);
    let r2 = uc.remove_education(&mut doc, 7);
    assert_eq!(r2, Err(DocumentError::IndexOutOfBounds));
    assert_eq!(doc, before);
}

#[test]
fn remove_education_preserves_order_of_remaining() {
    let uc = new_use_case();
    let mut doc = uc.create_new_resume();
    uc.add_education(&mut doc, education("A", "1"));
    uc.add_education(&mut doc, education("B", "2"));
    uc.add_education(&mut doc, education("C", "3"));
    let r = uc.remove_education(&mut doc, 1);
    assert_eq!(r, Ok(()));
    assert_eq!(doc.education.len(), 2);
    assert_eq!(doc.education[0].institution, "A");
    assert_eq!(doc.education[1].institution, "C");
}

#[test]
fn remove_first_of_two_experiences_keeps_the_second() {
    let uc = new_use_case();
    let mut doc = uc.create_new_resume();
    uc.add_experience(&mut doc, experience("First Corp"));
    uc.add_experience(&mut doc, experience("Second Corp"));
    let kept = doc.experience[1].clone();
    let r = uc.remove_experience(&mut doc, 0);
    assert_eq!(r, Ok(()));
    assert_eq!(doc.experience.len(), 1);
    assert_eq!(doc.experience[0], kept);
}

#[test]
fn update_experience_out_of_bounds_is_rejected() {
    let uc = new_use_case();
    let mut doc = uc.create_new_resume();
    uc.add_experience(&mut doc, experience("Only Corp"));
    let before = doc.clone();
    let r = uc.update_experience(&mut doc, 3, experience("Ghost Corp"));
    assert_eq!(r, Err(DocumentError::IndexOutOfBounds));
    assert_eq!(doc, before);
}

#[test]
fn change_theme_last_write_wins() {
    let uc = new_use_case();
    let mut doc = uc.create_new_resume();
    uc.change_theme(&mut doc, ResumeTheme::Modern);
    uc.change_theme(&mut doc, ResumeTheme::Minimal);
    assert_eq!(doc.theme, ResumeTheme::Minimal);
}

#[test]
fn update_project_with_index_five_on_two_projects_fails() {
    let uc = new_use_case();
    let mut doc = uc.create_new_resume();
    uc.add_project(&mut doc, project("One"));
    uc.add_project(&mut doc, project("Two"));
    let before_projects = doc.projects.clone();
    let r = uc.update_project(&mut doc, 5, project("Five"));
    assert_eq!(r, Err(DocumentError::IndexOutOfBounds));
    assert_eq!(doc.projects, before_projects);
}

#[test]
fn remove_project_out_of_bounds_is_rejected() {
    let uc = new_use_case();
    let mut doc = uc.create_new_resume();
    let before = doc.clone();
    let r = uc.remove_project(&mut doc, 0);
    assert_eq!(r, Err(DocumentError::IndexOutOfBounds));
    assert_eq!(doc, before);
}

#[test]
fn update_personal_info_and_skills_replace_unconditionally() {
    let uc = new_use_case();
    let mut doc = uc.create_new_resume();
    let info = PersonalInfo {
        name: "Ada".to_string(),
        email: "ada@example.com".to_string(),
        phone: String::new(),
        website: String::new(),
        linkedin: String::new(),
        github: String::new(),
        location: String::new(),
        summary: String::new(),
    };
    uc.update_personal_info(&mut doc, info.clone());
    assert_eq!(doc.personal_info, info);
    let skills = Skills {
        skill_list: vec![Skill { name: "Verification".to_string(), level: 5 }],
    };
    uc.update_skills(&mut doc, skills.clone());
    assert_eq!(doc.skills, skills);
}

#[test]
fn theme_names_and_enumeration() {
    assert_eq!(ResumeTheme::Professional.name(), "Professional");
    assert_eq!(ResumeTheme::Minimal.name(), "Minimal");
    assert_eq!(ResumeTheme::Creative.name(), "Creative");
    assert_eq!(ResumeTheme::Modern.name(), "Modern");
    let all = ResumeTheme::all();
    assert_eq!(
        all,
        vec![
            ResumeTheme::Professional,
            ResumeTheme::Minimal,
            ResumeTheme::Creative,
            ResumeTheme::Modern,
        ]
    );
}

#[test]
fn sample_resume_holds_expected_content() {
    let doc = sample_resume();
    assert_eq!(doc.personal_info.name, "John Doe");
    assert_eq!(doc.education.len(), 1);
    assert_eq!(doc.education[0].institution, "State University");
    assert_eq!(doc.experience.len(), 1);
    assert_eq!(doc.experience[0].company, "Tech Corp");
    assert_eq!(doc.skills.skill_list.len(), 2);
    assert_eq!(doc.skills.skill_list[1].name, "React");
    assert_eq!(doc.skills.skill_list[1].level, 5);
    assert_eq!(doc.projects.len(), 1);
    assert_eq!(doc.projects[0].start_date, None);
    assert_eq!(doc.theme, ResumeTheme::Professional);
}

#[test]
fn view_model_mutators_apply_and_reject() {
    let mut vm = ResumeViewModel::new(new_use_case());
    vm.add_education(education("State University", "B.Sc."));
    assert_eq!(vm.resume().education.len(), 1);
    let r = vm.update_education(4, education("Nope", "X"));
    assert_eq!(r, Err(DocumentError::IndexOutOfBounds));
    assert_eq!(vm.resume().education[0].institution, "State University");
    let r2 = vm.update_education(0, education("Tech Institute", "M.Sc."));
    assert_eq!(r2, Ok(()));
    assert_eq!(vm.resume().education[0].institution, "Tech Institute");
    let r3 = vm.remove_education(0);
    assert_eq!(r3, Ok(()));
    assert!(vm.resume().education.is_empty());
}

#[test]
fn view_model_returns_copies_of_the_live_document() {
    let mut vm = ResumeViewModel::new(new_use_case());
    vm.change_theme(ResumeTheme::Creative);
    let mut copy: Resume = vm.resume();
    copy.theme = ResumeTheme::Modern;
    assert_eq!(vm.resume().theme, ResumeTheme::Creative);
}

#[test]
fn error_messages_are_readable() {
    assert_eq!(DocumentError::IndexOutOfBounds.message(), "index out of bounds");
}
