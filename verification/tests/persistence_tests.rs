//! Tests for the persistence port, both adapters, and the snapshot codec.

use resume_builder::codec::{parse_document, render_document};
use resume_builder::durable::{DurableResumeRepository, InMemorySnapshotStore, SnapshotStore};
use resume_builder::errors::StorageError;
use resume_builder::models::{Date, Education, PersonalInfo, Resume, ResumeTheme, Skill, Skills};
use resume_builder::repository::{InMemoryResumeRepository, ResumeRepository};
use resume_builder::sample::sample_resume;
use resume_builder::use_cases::ResumeUseCase;
use resume_builder::view_model::ResumeViewModel;

#[test]
fn in_memory_repository_load_before_save_is_not_found() {
    let repo = InMemoryResumeRepository::new();
    assert!(!repo.has_snapshot());
    assert_eq!(repo.load(), Err(StorageError::NotFound));
}

#[test]
fn in_memory_repository_round_trip() {
    let mut repo = InMemoryResumeRepository::new();
    let doc = sample_resume();
    assert_eq!(repo.save(&doc), Ok(()));
    assert!(repo.has_snapshot());
    assert_eq!(repo.load(), Ok(doc));
}

#[test]
fn resave_of_identical_content_succeeds_and_is_idempotent() {
    let mut repo = InMemoryResumeRepository::new();
    let doc = sample_resume();
    assert_eq!(repo.save(&doc), Ok(()));
    assert_eq!(repo.save(&doc), Ok(()));
    assert_eq!(repo.load(), Ok(doc));
}

#[test]
fn load_resume_on_empty_storage_equals_create_new_resume() {
    let uc = ResumeUseCase::new(InMemoryResumeRepository::new());
    let loaded = uc.load_resume().unwrap();
    assert_eq!(loaded, uc.create_new_resume());
}

#[test]
fn load_resume_returns_saved_document() {
    let mut uc = ResumeUseCase::new(InMemoryResumeRepository::new());
    let mut doc = uc.create_new_resume();
    uc.change_theme(&mut doc, ResumeTheme::Modern);
    uc.save_resume(&doc).unwrap();
    assert_eq!(uc.load_resume(), Ok(doc));
}

#[test]
fn durable_adapter_round_trips_the_sample_document() {
    let mut repo = DurableResumeRepository::new(InMemorySnapshotStore::new());
    let doc = sample_resume();
    assert_eq!(repo.save(&doc), Ok(()));
    assert!(repo.has_snapshot());
    assert_eq!(repo.load(), Ok(doc));
}

#[test]
fn durable_snapshot_survives_a_new_adapter_over_the_same_store() {
    let mut repo = DurableResumeRepository::new(InMemorySnapshotStore::new());
    let doc = sample_resume();
    repo.save(&doc).unwrap();
    let store = repo.store;
    let second_session = DurableResumeRepository::new(store);
    assert_eq!(second_session.load(), Ok(doc));
}

#[test]
fn durable_adapter_before_any_save_is_empty() {
    let repo = DurableResumeRepository::new(InMemorySnapshotStore::new());
    assert!(!repo.has_snapshot());
    assert_eq!(repo.load(), Err(StorageError::NotFound));
}

#[test]
fn durable_adapter_rejects_undecodable_text() {
    let mut store = InMemorySnapshotStore::new();
    store.write_text("not a snapshot").unwrap();
    let repo = DurableResumeRepository::new(store);
    assert!(repo.has_snapshot());
    assert_eq!(repo.load(), Err(StorageError::SerializationFailure));
}

#[test]
fn load_resume_propagates_a_decode_failure() {
    let mut store = InMemorySnapshotStore::new();
    store.write_text("not a snapshot").unwrap();
    let uc = ResumeUseCase::new(DurableResumeRepository::new(store));
    assert_eq!(uc.load_resume(), Err(StorageError::SerializationFailure));
}

#[test]
fn view_model_load_reports_a_decode_failure_and_keeps_the_live_document() {
    let mut store = InMemorySnapshotStore::new();
    store.write_text("not a snapshot").unwrap();
    let mut vm = ResumeViewModel::new(ResumeUseCase::new(DurableResumeRepository::new(store)));
    vm.change_theme(ResumeTheme::Creative);
    let before = vm.resume();
    assert_eq!(vm.load(), Err(StorageError::SerializationFailure));
    assert_eq!(vm.resume(), before);
}

#[test]
fn codec_round_trips_the_empty_document() {
    let doc = Resume {
        personal_info: PersonalInfo {
            name: String::new(),
            email: String::new(),
            phone: String::new(),
            website: String::new(),
            linkedin: String::new(),
            github: String::new(),
            location: String::new(),
            summary: String::new(),
        },
        education: Vec::new(),
        experience: Vec::new(),
        skills: Skills { skill_list: Vec::new() },
        projects: Vec::new(),
        theme: ResumeTheme::Professional,
    };
    let text = render_document(&doc);
    assert_eq!(parse_document(&text), Some(doc));
}

#[test]
fn codec_round_trips_awkward_characters() {
    let mut doc = sample_resume();
    doc.personal_info.name = "colon: newline\n backslash \\ quote \" done".to_string();
    doc.personal_info.summary = "line one\nline two\nitem:7:fake\n".to_string();
    doc.education[0].institution = "Université de Montréal — 数理学部".to_string();
    doc.experience[0].achievements =
        vec![String::new(), "a:b:c\nd".to_string(), "plain".to_string()];
    let text = render_document(&doc);
    assert_eq!(parse_document(&text), Some(doc));
}

#[test]
fn codec_round_trips_dates_and_levels() {
    let mut doc = sample_resume();
    doc.projects[0].start_date = Some(Date { year: 2019, month: 1, day: 31 });
    doc.projects[0].end_date = Some(Date { year: u32::MAX, month: 12, day: 1 });
    doc.skills.skill_list[0].level = 0;
    doc.skills.skill_list[1].level = 5;
    let text = render_document(&doc);
    assert_eq!(parse_document(&text), Some(doc));
}

#[test]
fn codec_renders_field_named_text() {
    let doc = sample_resume();
    let text = render_document(&doc);
    assert!(text.contains("name:8:John Doe\n"));
    assert!(text.contains("institution:16:State University\n"));
    assert!(text.contains("education:1\n"));
    assert!(text.contains("theme:0\n"));
}

#[test]
fn codec_rejects_truncated_and_padded_text() {
    let doc = sample_resume();
    let text = render_document(&doc);
    let mut truncated = text.clone();
    truncated.pop();
    assert_eq!(parse_document(&truncated), None);
    let padded = format!("{}extra", text);
    assert_eq!(parse_document(&padded), None);
    assert_eq!(parse_document(""), None);
}

#[test]
fn codec_rejects_a_tampered_count() {
    let doc = sample_resume();
    let text = render_document(&doc);
    let tampered = text.replace("education:1\n", "education:2\n");
    assert_eq!(parse_document(&tampered), None);
}

#[test]
fn view_model_save_and_load_round_trip() {
    let mut vm = ResumeViewModel::new(ResumeUseCase::new(DurableResumeRepository::new(
        InMemorySnapshotStore::new(),
    )));
    vm.add_education(Education {
        institution: "State University".to_string(),
        degree: "B.Sc.".to_string(),
        field_of_study: "CS".to_string(),
        start_date: String::new(),
        end_date: String::new(),
        location: String::new(),
        description: String::new(),
        gpa: String::new(),
    });
    vm.change_theme(ResumeTheme::Creative);
    vm.save().unwrap();
    let saved = vm.resume();
    vm.change_theme(ResumeTheme::Modern);
    vm.update_skills(Skills {
        skill_list: vec![Skill { name: "Prolog".to_string(), level: 2 }],
    });
    vm.load().unwrap();
    assert_eq!(vm.resume(), saved);
}

#[test]
fn view_model_load_on_empty_storage_yields_a_fresh_document() {
    let mut vm = ResumeViewModel::new(ResumeUseCase::new(InMemoryResumeRepository::new()));
    vm.change_theme(ResumeTheme::Minimal);
    vm.load().unwrap();
    assert_eq!(vm.resume(), ResumeUseCase::new(InMemoryResumeRepository::new()).create_new_resume());
}

#[test]
fn storage_error_messages_are_readable() {
    assert_eq!(StorageError::NotFound.message(), "no stored resume was found");
    assert_eq!(StorageError::Unavailable.message(), "storage is unavailable");
    assert_eq!(
        StorageError::SerializationFailure.message(),
        "the stored resume could not be decoded"
    );
    assert_eq!(StorageError::WriteFailure.message(), "storage rejected the write");
}
