//! A ready-made example document, useful for demonstrations and as seed
//! content for a fresh session.

use vstd::prelude::*;
use vstd::string::StringExecFns;

use crate::models::{
    Education, EducationView, Experience, ExperienceView, PersonalInfo, PersonalInfoView, Project,
    ProjectView, Resume, ResumeTheme, ResumeView, Skill, SkillView, Skills, SkillsView,
};

verus! {

/// The view of the example document, field by field.
pub open spec fn spec_sample_resume() -> ResumeView {
    ResumeView {
        personal_info: PersonalInfoView {
            name: "John Doe"@,
            email: "john.doe@example.com"@,
            phone: "123-456-7890"@,
            website: "https://johndoe.dev"@,
            linkedin: "johndoe"@,
            github: "johndoe"@,
            location: "New York, NY"@,
            summary: "Experienced software engineer with a passion for building impactful products. Skilled in designing, developing, and deploying scalable applications using modern technologies. Proven track record of leading teams, mentoring junior developers, and delivering high-quality software on time. Adept at collaborating with cross-functional teams to solve complex problems and drive innovation. Always eager to learn new tools and contribute to open source projects. Seeking opportunities to make a meaningful impact in a dynamic environment."@,
        },
        education: seq![
            EducationView {
                institution: "State University"@,
                degree: "B.Sc."@,
                field_of_study: "Computer Science"@,
                start_date: "2015-09"@,
                end_date: "2019-06"@,
                location: "New York, NY"@,
                description: "Graduated with honors."@,
                gpa: "3.8"@,
            },
        ],
        experience: seq![
            ExperienceView {
                company: "Tech Corp"@,
                position: "Software Engineer"@,
                start_date: "2019-07"@,
                end_date: "2022-08"@,
                location: "Remote"@,
                description: "Worked on backend systems."@,
                achievements: seq!["Improved API performance by 30%"@],
                is_current: false,
            },
        ],
        skills: SkillsView {
            skill_list: seq![
                SkillView { name: "Rust"@, level: 4 },
                SkillView { name: "React"@, level: 5 },
            ],
        },
        projects: seq![
            ProjectView {
                name: "Open Source CLI"@,
                description: "A CLI tool for productivity."@,
                start_date: None,
                end_date: None,
                technologies: seq!["Rust"@, "CLI"@],
                url: "https://github.com/johndoe/cli"@,
                achievements: Seq::empty(),
            },
        ],
        theme: ResumeTheme::Professional,
    }
}

/// Builds the example document.
pub fn sample_resume() -> (r: Resume)
    ensures
        r@ == spec_sample_resume(),
{
    let personal_info = PersonalInfo {
        name: String::from_str("John Doe"),
        email: String::from_str("john.doe@example.com"),
        phone: String::from_str("123-456-7890"),
        website: String::from_str("https://johndoe.dev"),
        linkedin: String::from_str("johndoe"),
        github: String::from_str("johndoe"),
        location: String::from_str("New York, NY"),
        summary: String::from_str("Experienced software engineer with a passion for building impactful products. Skilled in designing, developing, and deploying scalable applications using modern technologies. Proven track record of leading teams, mentoring junior developers, and delivering high-quality software on time. Adept at collaborating with cross-functional teams to solve complex problems and drive innovation. Always eager to learn new tools and contribute to open source projects. Seeking opportunities to make a meaningful impact in a dynamic environment."),
    };
    let mut education: Vec<Education> = Vec::new();
    education.push(Education {
        institution: String::from_str("State University"),
        degree: String::from_str("B.Sc."),
        field_of_study: String::from_str("Computer Science"),
        start_date: String::from_str("2015-09"),
        end_date: String::from_str("2019-06"),
        location: String::from_str("New York, NY"),
        description: String::from_str("Graduated with honors."),
        gpa: String::from_str("3.8"),
    });
    let mut achievements: Vec<String> = Vec::new();
    achievements.push(String::from_str("Improved API performance by 30%"));
    let mut experience: Vec<Experience> = Vec::new();
    experience.push(Experience {
        company: String::from_str("Tech Corp"),
        position: String::from_str("Software Engineer"),
        start_date: String::from_str("2019-07"),
        end_date: String::from_str("2022-08"),
        location: String::from_str("Remote"),
        description: String::from_str("Worked on backend systems."),
        achievements,
        is_current: false,
    });
    let mut skill_list: Vec<Skill> = Vec::new();
    skill_list.push(Skill { name: String::from_str("Rust"), level: 4 });
    skill_list.push(Skill { name: String::from_str("React"), level: 5 });
    let mut technologies: Vec<String> = Vec::new();
    technologies.push(String::from_str("Rust"));
    technologies.push(String::from_str("CLI"));
    let mut projects: Vec<Project> = Vec::new();
    projects.push(Project {
        name: String::from_str("Open Source CLI"),
        description: String::from_str("A CLI tool for productivity."),
        start_date: None,
        end_date: None,
        technologies,
        url: String::from_str("https://github.com/johndoe/cli"),
        achievements: Vec::new(),
    });
    let r = Resume {
        personal_info,
        education,
        experience,
        skills: Skills { skill_list },
        projects,
        theme: ResumeTheme::Professional,
    };
    proof {
        assert(r@ =~~= spec_sample_resume());
    }
    r
}

} // verus!
