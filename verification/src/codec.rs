//! The executable snapshot codec: renders a document to the text format of
//! [`crate::format`] and parses such text back, each function verified
//! against the corresponding spec function.

use vstd::prelude::*;
use vstd::string::StrSliceExecFns;
use vstd::string::StringExecFns;

use crate::format::{
    digit_val, fits_education, fits_experience, fits_personal_info, fits_project, fits_resume,
    fits_skill, fits_str, fits_string_list, is_digit_char, spec_date_day, spec_date_month,
    spec_date_year, spec_dec, spec_digit, spec_parse_bool_field, spec_parse_digits,
    spec_parse_document, spec_parse_education, spec_parse_education_items, spec_parse_experience,
    spec_parse_experience_items, spec_parse_lit, spec_parse_num, spec_parse_num_field,
    spec_parse_opt_date, spec_parse_personal_info, spec_parse_project, spec_parse_project_items,
    spec_parse_resume, spec_parse_skill, spec_parse_skill_items, spec_parse_str_field,
    spec_parse_string_items, spec_parse_string_list, spec_render_bool_field, spec_render_education,
    spec_render_education_items, spec_render_experience, spec_render_experience_items,
    spec_render_num_field, spec_render_opt_date, spec_render_personal_info, spec_render_project,
    spec_render_project_items, spec_render_resume, spec_render_skill, spec_render_skill_items,
    spec_render_str_field, spec_render_string_items, spec_render_string_list, theme_code,
    theme_from_code,
};
use crate::models::{
    Date, Education, Experience, PersonalInfo, Project, Resume, ResumeTheme, Skill, Skills,
};

verus! {

// ---------------------------------------------------------------------------
// Rendering
// ---------------------------------------------------------------------------

/// Appends the text of a single digit.
fn push_digit(out: &mut String, d: usize)
    requires
        d < 10,
    ensures
        final(out)@ == old(out)@ + spec_digit(d as nat),
{
    if d == 0 {
        out.append("0");
    } else if d == 1 {
        out.append("1");
    } else if d == 2 {
        out.append("2");
    } else if d == 3 {
        out.append("3");
    } else if d == 4 {
        out.append("4");
    } else if d == 5 {
        out.append("5");
    } else if d == 6 {
        out.append("6");
    } else if d == 7 {
        out.append("7");
    } else if d == 8 {
        out.append("8");
    } else {
        out.append("9");
    }
}

/// Appends the decimal text of `n`.
fn push_dec(out: &mut String, n: usize)
    ensures
        final(out)@ == old(out)@ + spec_dec(n as nat),
    decreases n,
{
    if n >= 10 {
        push_dec(out, n / 10);
        push_digit(out, n % 10);
        proof {
            assert(out@ =~= old(out)@ + spec_dec(n as nat));
        }
    } else {
        push_digit(out, n);
    }
}

/// Appends a text field.
fn render_str_field(out: &mut String, name: &str, payload: &str)
    ensures
        final(out)@ == old(out)@ + spec_render_str_field(name@, payload@),
        fits_str(payload@),
{
    out.append(name);
    out.append(":");
    let n = payload.unicode_len();
    push_dec(out, n);
    out.append(":");
    out.append(payload);
    out.append("\n");
    proof {
        assert(out@ =~= old(out)@ + spec_render_str_field(name@, payload@));
    }
}

/// Appends a number field.
fn render_num_field(out: &mut String, name: &str, n: usize)
    ensures
        final(out)@ == old(out)@ + spec_render_num_field(name@, n as nat),
{
    out.append(name);
    out.append(":");
    push_dec(out, n);
    out.append("\n");
    proof {
        assert(out@ =~= old(out)@ + spec_render_num_field(name@, n as nat));
    }
}

/// Appends a flag field.
fn render_bool_field(out: &mut String, name: &str, b: bool)
    ensures
        final(out)@ == old(out)@ + spec_render_bool_field(name@, b),
{
    if b {
        render_num_field(out, name, 1);
    } else {
        render_num_field(out, name, 0);
    }
}

/// Appends the personal-information record.
fn render_personal_info(out: &mut String, p: &PersonalInfo)
    ensures
        final(out)@ == old(out)@ + spec_render_personal_info(p@),
        fits_personal_info(p@),
{
    render_str_field(out, "name", p.name.as_str());
    render_str_field(out, "email", p.email.as_str());
    render_str_field(out, "phone", p.phone.as_str());
    render_str_field(out, "website", p.website.as_str());
    render_str_field(out, "linkedin", p.linkedin.as_str());
    render_str_field(out, "github", p.github.as_str());
    render_str_field(out, "location", p.location.as_str());
    render_str_field(out, "summary", p.summary.as_str());
    proof {
        assert(out@ =~= old(out)@ + spec_render_personal_info(p@));
    }
}

/// Appends an education record.
fn render_education(out: &mut String, e: &Education)
    ensures
        final(out)@ == old(out)@ + spec_render_education(e@),
        fits_education(e@),
{
    render_str_field(out, "institution", e.institution.as_str());
    render_str_field(out, "degree", e.degree.as_str());
    render_str_field(out, "field_of_study", e.field_of_study.as_str());
    render_str_field(out, "start_date", e.start_date.as_str());
    render_str_field(out, "end_date", e.end_date.as_str());
    render_str_field(out, "location", e.location.as_str());
    render_str_field(out, "description", e.description.as_str());
    render_str_field(out, "gpa", e.gpa.as_str());
    proof {
        assert(out@ =~= old(out)@ + spec_render_education(e@));
    }
}

/// Appends the entries of a text list, starting at index `i`.
fn render_string_items(out: &mut String, v: &Vec<String>, i: usize)
    requires
        i <= v.len(),
    ensures
        final(out)@ == old(out)@ + spec_render_string_items(v.deep_view().skip(i as int)),
        forall|k: int| i <= k < v.len() ==> fits_str(#[trigger] v.deep_view()[k]),
    decreases v.len() - i,
{
    if i < v.len() {
        render_str_field(out, "item", v[i].as_str());
        render_string_items(out, v, i + 1);
        proof {
            let items = v.deep_view().skip(i as int);
            assert(items[0] == v.deep_view()[i as int]);
            assert(items.drop_first() =~= v.deep_view().skip(i as int + 1));
            assert(out@ =~= old(out)@ + spec_render_string_items(items));
        }
    } else {
        proof {
            assert(v.deep_view().skip(i as int) =~= Seq::<Seq<char>>::empty());
            assert(old(out)@ + spec_render_string_items(v.deep_view().skip(i as int)) =~= old(
                out,
            )@);
        }
    }
}

/// Appends a text list: its count field and its entries.
fn render_string_list(out: &mut String, name: &str, v: &Vec<String>)
    ensures
        final(out)@ == old(out)@ + spec_render_string_list(name@, v.deep_view()),
        fits_string_list(v.deep_view()),
{
    render_num_field(out, name, v.len());
    render_string_items(out, v, 0);
    proof {
        assert(v.deep_view().skip(0) =~= v.deep_view());
        assert(out@ =~= old(out)@ + spec_render_string_list(name@, v.deep_view()));
    }
}

/// Appends a work-experience record.
fn render_experience(out: &mut String, x: &Experience)
    ensures
        final(out)@ == old(out)@ + spec_render_experience(x@),
        fits_experience(x@),
{
    render_str_field(out, "company", x.company.as_str());
    render_str_field(out, "position", x.position.as_str());
    render_str_field(out, "start_date", x.start_date.as_str());
    render_str_field(out, "end_date", x.end_date.as_str());
    render_str_field(out, "location", x.location.as_str());
    render_str_field(out, "description", x.description.as_str());
    render_string_list(out, "achievements", &x.achievements);
    render_bool_field(out, "is_current", x.is_current);
    proof {
        assert(out@ =~= old(out)@ + spec_render_experience(x@));
    }
}

/// Appends a skill record.
fn render_skill(out: &mut String, k: &Skill)
    ensures
        final(out)@ == old(out)@ + spec_render_skill(k@),
        fits_skill(k@),
{
    render_str_field(out, "name", k.name.as_str());
    render_num_field(out, "level", k.level as usize);
    proof {
        assert(out@ =~= old(out)@ + spec_render_skill(k@));
    }
}

/// Appends an optional date as a flag and three number fields.
fn render_opt_date(
    out: &mut String,
    fname: &str,
    yname: &str,
    mname: &str,
    dname: &str,
    od: Option<Date>,
)
    ensures
        final(out)@ == old(out)@ + spec_render_opt_date(fname@, yname@, mname@, dname@, od),
{
    match od {
        Some(d) => {
            render_bool_field(out, fname, true);
            render_num_field(out, yname, d.year as usize);
            render_num_field(out, mname, d.month as usize);
            render_num_field(out, dname, d.day as usize);
        },
        None => {
            render_bool_field(out, fname, false);
            render_num_field(out, yname, 0);
            render_num_field(out, mname, 0);
            render_num_field(out, dname, 0);
        },
    }
    proof {
        assert(out@ =~= old(out)@ + spec_render_opt_date(fname@, yname@, mname@, dname@, od));
    }
}

/// Appends a project record.
fn render_project(out: &mut String, p: &Project)
    ensures
        final(out)@ == old(out)@ + spec_render_project(p@),
        fits_project(p@),
{
    render_str_field(out, "name", p.name.as_str());
    render_str_field(out, "description", p.description.as_str());
    render_opt_date(out, "has_start_date", "start_year", "start_month", "start_day", p.start_date);
    render_opt_date(out, "has_end_date", "end_year", "end_month", "end_day", p.end_date);
    render_string_list(out, "technologies", &p.technologies);
    render_str_field(out, "url", p.url.as_str());
    render_string_list(out, "achievements", &p.achievements);
    proof {
        assert(out@ =~= old(out)@ + spec_render_project(p@));
    }
}

/// Appends the education section's entries, starting at index `i`.
fn render_education_items(out: &mut String, v: &Vec<Education>, i: usize)
    requires
        i <= v.len(),
    ensures
        final(out)@ == old(out)@ + spec_render_education_items(v.deep_view().skip(i as int)),
        forall|k: int| i <= k < v.len() ==> fits_education(#[trigger] v.deep_view()[k]),
    decreases v.len() - i,
{
    if i < v.len() {
        render_education(out, &v[i]);
        render_education_items(out, v, i + 1);
        proof {
            let items = v.deep_view().skip(i as int);
            assert(items[0] == v.deep_view()[i as int]);
            assert(items.drop_first() =~= v.deep_view().skip(i as int + 1));
            assert(out@ =~= old(out)@ + spec_render_education_items(items));
        }
    } else {
        proof {
            assert(v.deep_view().skip(i as int) =~= Seq::<crate::models::EducationView>::empty());
            assert(old(out)@ + spec_render_education_items(v.deep_view().skip(i as int)) =~= old(
                out,
            )@);
        }
    }
}

/// Appends the experience section's entries, starting at index `i`.
fn render_experience_items(out: &mut String, v: &Vec<Experience>, i: usize)
    requires
        i <= v.len(),
    ensures
        final(out)@ == old(out)@ + spec_render_experience_items(v.deep_view().skip(i as int)),
        forall|k: int| i <= k < v.len() ==> fits_experience(#[trigger] v.deep_view()[k]),
    decreases v.len() - i,
{
    if i < v.len() {
        render_experience(out, &v[i]);
        render_experience_items(out, v, i + 1);
        proof {
            let items = v.deep_view().skip(i as int);
            assert(items[0] == v.deep_view()[i as int]);
            assert(items.drop_first() =~= v.deep_view().skip(i as int + 1));
            assert(out@ =~= old(out)@ + spec_render_experience_items(items));
        }
    } else {
        proof {
            assert(v.deep_view().skip(i as int) =~= Seq::<crate::models::ExperienceView>::empty());
            assert(old(out)@ + spec_render_experience_items(v.deep_view().skip(i as int)) =~= old(
                out,
            )@);
        }
    }
}

/// Appends the skills section's entries, starting at index `i`.
fn render_skill_items(out: &mut String, v: &Vec<Skill>, i: usize)
    requires
        i <= v.len(),
    ensures
        final(out)@ == old(out)@ + spec_render_skill_items(v.deep_view().skip(i as int)),
        forall|k: int| i <= k < v.len() ==> fits_skill(#[trigger] v.deep_view()[k]),
    decreases v.len() - i,
{
    if i < v.len() {
        render_skill(out, &v[i]);
        render_skill_items(out, v, i + 1);
        proof {
            let items = v.deep_view().skip(i as int);
            assert(items[0] == v.deep_view()[i as int]);
            assert(items.drop_first() =~= v.deep_view().skip(i as int + 1));
            assert(out@ =~= old(out)@ + spec_render_skill_items(items));
        }
    } else {
        proof {
            assert(v.deep_view().skip(i as int) =~= Seq::<crate::models::SkillView>::empty());
            assert(old(out)@ + spec_render_skill_items(v.deep_view().skip(i as int)) =~= old(
                out,
            )@);
        }
    }
}

/// Appends the projects section's entries, starting at index `i`.
#[verifier::rlimit(60)]
fn render_project_items(out: &mut String, v: &Vec<Project>, i: usize)
    requires
        i <= v.len(),
    ensures
        final(out)@ == old(out)@ + spec_render_project_items(v.deep_view().skip(i as int)),
        forall|k: int| i <= k < v.len() ==> fits_project(#[trigger] v.deep_view()[k]),
    decreases v.len() - i,
{
    if i < v.len() {
        render_project(out, &v[i]);
        render_project_items(out, v, i + 1);
        proof {
            let items = v.deep_view().skip(i as int);
            assert(items[0] == v.deep_view()[i as int]);
            assert(items.drop_first() =~= v.deep_view().skip(i as int + 1));
            assert(out@ =~= old(out)@ + spec_render_project_items(items));
        }
    } else {
        proof {
            assert(v.deep_view().skip(i as int) =~= Seq::<crate::models::ProjectView>::empty());
            assert(old(out)@ + spec_render_project_items(v.deep_view().skip(i as int)) =~= old(
                out,
            )@);
        }
    }
}

/// The number a theme is written as.
fn theme_to_code(t: ResumeTheme) -> (r: usize)
    ensures
        r as nat == theme_code(t),
{
    match t {
        ResumeTheme::Professional => 0,
        ResumeTheme::Minimal => 1,
        ResumeTheme::Creative => 2,
        ResumeTheme::Modern => 3,
    }
}

/// Renders a whole document as snapshot text.
pub fn render_document(resume: &Resume) -> (r: String)
    ensures
        r@ == spec_render_resume(resume@),
        fits_resume(resume@),
{
    let mut out = String::new();
    render_personal_info(&mut out, &resume.personal_info);
    render_num_field(&mut out, "education", resume.education.len());
    render_education_items(&mut out, &resume.education, 0);
    render_num_field(&mut out, "experience", resume.experience.len());
    render_experience_items(&mut out, &resume.experience, 0);
    render_num_field(&mut out, "skills", resume.skills.skill_list.len());
    render_skill_items(&mut out, &resume.skills.skill_list, 0);
    render_num_field(&mut out, "projects", resume.projects.len());
    render_project_items(&mut out, &resume.projects, 0);
    let code = theme_to_code(resume.theme);
    render_num_field(&mut out, "theme", code);
    proof {
        assert(resume.education.deep_view().skip(0) =~= resume.education.deep_view());
        assert(resume.experience.deep_view().skip(0) =~= resume.experience.deep_view());
        assert(resume.skills.skill_list.deep_view().skip(0)
            =~= resume.skills.skill_list.deep_view());
        assert(resume.projects.deep_view().skip(0) =~= resume.projects.deep_view());
        assert(out@ =~= spec_render_resume(resume@));
    }
    out
}

// ---------------------------------------------------------------------------
// Parsing
// ---------------------------------------------------------------------------

/// Whether `c` is a decimal digit.
fn is_digit(c: char) -> (r: bool)
    ensures
        r == is_digit_char(c),
{
    c == '0' || c == '1' || c == '2' || c == '3' || c == '4' || c == '5' || c == '6' || c == '7'
        || c == '8' || c == '9'
}

/// Whether the character at index `j` is a decimal digit.
fn is_digit_at(s: &str, j: usize) -> (r: bool)
    requires
        j < s@.len(),
    ensures
        r == is_digit_char(s@[j as int]),
{
    is_digit(s.get_char(j))
}

/// The numeric value of a digit character.
fn digit_value(c: char) -> (r: usize)
    requires
        is_digit_char(c),
    ensures
        r as nat == digit_val(c),
        r < 10,
{
    if c == '0' {
        0
    } else if c == '1' {
        1
    } else if c == '2' {
        2
    } else if c == '3' {
        3
    } else if c == '4' {
        4
    } else if c == '5' {
        5
    } else if c == '6' {
        6
    } else if c == '7' {
        7
    } else if c == '8' {
        8
    } else {
        9
    }
}

/// Consumes the literal `lit` at index `i`, returning the index after it.
fn expect_lit(s: &str, i: usize, lit: &str) -> (r: Option<usize>)
    requires
        i <= s@.len(),
    ensures
        r matches Some(j) ==> i <= j <= s@.len() && spec_parse_lit(s@.skip(i as int), lit@)
            == Some(s@.skip(j as int)),
        r is None ==> spec_parse_lit(s@.skip(i as int), lit@) is None,
{
    let sl = s.unicode_len();
    let ll = lit.unicode_len();
    if sl - i < ll {
        proof {
            assert(s@.skip(i as int).len() < lit@.len());
        }
        return None;
    }
    let mut k: usize = 0;
    while k < ll
        invariant
            0 <= k <= ll,
            i + ll <= sl,
            sl == s@.len(),
            ll == lit@.len(),
            forall|m: int| 0 <= m < k ==> s@.skip(i as int)[m] == lit@[m],
        decreases ll - k,
    {
        let a = s.get_char(i + k);
        let b = lit.get_char(k);
        proof {
            assert(s@.skip(i as int)[k as int] == s@[i + k]);
        }
        if a != b {
            proof {
                assert(s@.skip(i as int).take(ll as int)[k as int] == s@.skip(i as int)[k as int]);
            }
            return None;
        }
        k = k + 1;
    }
    proof {
        assert(s@.skip(i as int).take(ll as int) =~= lit@);
        assert(s@.skip(i as int).skip(ll as int) =~= s@.skip(i as int + ll));
    }
    Some(i + ll)
}

/// Parses a decimal number at index `i`.
fn parse_num(s: &str, i: usize) -> (r: Option<(usize, usize)>)
    requires
        i <= s@.len(),
    ensures
        r matches Some(x) ==> i <= x.1 <= s@.len() && spec_parse_num(s@.skip(i as int)) == Some(
            (x.0 as nat, s@.skip(x.1 as int)),
        ),
        r is None ==> spec_parse_num(s@.skip(i as int)) is None,
{
    let sl = s.unicode_len();
    if i >= sl {
        return None;
    }
    let c0 = s.get_char(i);
    proof {
        assert(s@.skip(i as int)[0] == s@[i as int]);
    }
    if !is_digit(c0) {
        return None;
    }
    let mut j: usize = i;
    let mut acc: usize = 0;
    while j < sl && is_digit_at(s, j)
        invariant
            i <= j <= sl,
            sl == s@.len(),
            spec_parse_digits(s@.skip(i as int), 0) == spec_parse_digits(
                s@.skip(j as int),
                acc as nat,
            ),
        decreases sl - j,
    {
        let c = s.get_char(j);
        let d = digit_value(c);
        proof {
            assert(s@.skip(j as int)[0] == s@[j as int]);
        }
        if acc > (usize::MAX - d) / 10 {
            proof {
                assert((acc as nat) * 10 + (d as nat) > usize::MAX) by (nonlinear_arith)
                    requires
                        acc > (usize::MAX - d) / 10,
                        d < 10,
                        acc >= 0,
                ;
            }
            return None;
        }
        proof {
            assert((acc as nat) * 10 + (d as nat) <= usize::MAX) by (nonlinear_arith)
                requires
                    acc <= (usize::MAX - d) / 10,
                    d < 10,
                    acc >= 0,
            ;
        }
        let ghost jj = j as int;
        acc = acc * 10 + d;
        j = j + 1;
        proof {
            assert(s@.skip(jj).skip(1) =~= s@.skip(jj + 1));
        }
    }
    proof {
        if j < sl {
            assert(s@.skip(j as int)[0] == s@[j as int]);
        }
        assert(spec_parse_digits(s@.skip(j as int), acc as nat) == Some(
            (acc as nat, s@.skip(j as int)),
        ));
    }
    Some((acc, j))
}

/// Copies out exactly `n` characters starting at index `i`.
fn parse_payload(s: &str, i: usize, n: usize) -> (r: Option<(String, usize)>)
    requires
        i <= s@.len(),
    ensures
        r matches Some(x) ==> x.1 == i + n && x.1 <= s@.len() && x.0@ == s@.skip(i as int).take(
            n as int,
        ),
        r is None ==> n as int > s@.len() - i,
{
    let sl = s.unicode_len();
    if sl - i < n {
        return None;
    }
    let sub = s.substring_char(i, i + n);
    let p = sub.to_owned();
    proof {
        assert(s@.skip(i as int).take(n as int) =~= s@.subrange(i as int, i as int + n as int));
    }
    Some((p, i + n))
}

/// Parses a text field named `name` at index `i`.
fn parse_str_field(s: &str, i: usize, name: &str) -> (r: Option<(String, usize)>)
    requires
        i <= s@.len(),
    ensures
        r matches Some(x) ==> i <= x.1 <= s@.len() && spec_parse_str_field(
            s@.skip(i as int),
            name@,
        ) == Some((x.0@, s@.skip(x.1 as int))),
        r is None ==> spec_parse_str_field(s@.skip(i as int), name@) is None,
{
    let j1 = match expect_lit(s, i, name) {
        Some(j) => j,
        None => {
            return None;
        },
    };
    let j2 = match expect_lit(s, j1, ":") {
        Some(j) => j,
        None => {
            return None;
        },
    };
    let (n, j3) = match parse_num(s, j2) {
        Some(x) => x,
        None => {
            return None;
        },
    };
    let j4 = match expect_lit(s, j3, ":") {
        Some(j) => j,
        None => {
            return None;
        },
    };
    let (p, j5) = match parse_payload(s, j4, n) {
        Some(x) => x,
        None => {
            return None;
        },
    };
    let j6 = match expect_lit(s, j5, "\n") {
        Some(j) => j,
        None => {
            proof {
                assert(s@.skip(j4 as int).skip(n as int) =~= s@.skip(j4 as int + n as int));
            }
            return None;
        },
    };
    proof {
        assert(s@.skip(j4 as int).skip(n as int) =~= s@.skip(j4 as int + n as int));
    }
    Some((p, j6))
}

/// Parses a number field named `name` at index `i`.
fn parse_num_field(s: &str, i: usize, name: &str) -> (r: Option<(usize, usize)>)
    requires
        i <= s@.len(),
    ensures
        r matches Some(x) ==> i <= x.1 <= s@.len() && spec_parse_num_field(
            s@.skip(i as int),
            name@,
        ) == Some((x.0 as nat, s@.skip(x.1 as int))),
        r is None ==> spec_parse_num_field(s@.skip(i as int), name@) is None,
{
    let j1 = match expect_lit(s, i, name) {
        Some(j) => j,
        None => {
            return None;
        },
    };
    let j2 = match expect_lit(s, j1, ":") {
        Some(j) => j,
        None => {
            return None;
        },
    };
    let (n, j3) = match parse_num(s, j2) {
        Some(x) => x,
        None => {
            return None;
        },
    };
    let j4 = match expect_lit(s, j3, "\n") {
        Some(j) => j,
        None => {
            return None;
        },
    };
    Some((n, j4))
}

/// Parses a flag field named `name` at index `i`.
fn parse_bool_field(s: &str, i: usize, name: &str) -> (r: Option<(bool, usize)>)
    requires
        i <= s@.len(),
    ensures
        r matches Some(x) ==> i <= x.1 <= s@.len() && spec_parse_bool_field(
            s@.skip(i as int),
            name@,
        ) == Some((x.0, s@.skip(x.1 as int))),
        r is None ==> spec_parse_bool_field(s@.skip(i as int), name@) is None,
{
    let (n, j) = match parse_num_field(s, i, name) {
        Some(x) => x,
        None => {
            return None;
        },
    };
    if n > 1 {
        return None;
    }
    Some((n == 1, j))
}

/// Parses a personal-information record at index `i`.
fn parse_personal_info(s: &str, i: usize) -> (r: Option<(PersonalInfo, usize)>)
    requires
        i <= s@.len(),
    ensures
        r matches Some(x) ==> i <= x.1 <= s@.len() && spec_parse_personal_info(s@.skip(i as int))
            == Some((x.0@, s@.skip(x.1 as int))),
        r is None ==> spec_parse_personal_info(s@.skip(i as int)) is None,
{
    let (name, j1) = match parse_str_field(s, i, "name") {
        Some(x) => x,
        None => {
            return None;
        },
    };
    let (email, j2) = match parse_str_field(s, j1, "email") {
        Some(x) => x,
        None => {
            return None;
        },
    };
    let (phone, j3) = match parse_str_field(s, j2, "phone") {
        Some(x) => x,
        None => {
            return None;
        },
    };
    let (website, j4) = match parse_str_field(s, j3, "website") {
        Some(x) => x,
        None => {
            return None;
        },
    };
    let (linkedin, j5) = match parse_str_field(s, j4, "linkedin") {
        Some(x) => x,
        None => {
            return None;
        },
    };
    let (github, j6) = match parse_str_field(s, j5, "github") {
        Some(x) => x,
        None => {
            return None;
        },
    };
    let (location, j7) = match parse_str_field(s, j6, "location") {
        Some(x) => x,
        None => {
            return None;
        },
    };
    let (summary, j8) = match parse_str_field(s, j7, "summary") {
        Some(x) => x,
        None => {
            return None;
        },
    };
    let p = PersonalInfo { name, email, phone, website, linkedin, github, location, summary };
    Some((p, j8))
}

/// Parses an education record at index `i`.
fn parse_education(s: &str, i: usize) -> (r: Option<(Education, usize)>)
    requires
        i <= s@.len(),
    ensures
        r matches Some(x) ==> i <= x.1 <= s@.len() && spec_parse_education(s@.skip(i as int))
            == Some((x.0@, s@.skip(x.1 as int))),
        r is None ==> spec_parse_education(s@.skip(i as int)) is None,
{
    let (institution, j1) = match parse_str_field(s, i, "institution") {
        Some(x) => x,
        None => {
            return None;
        },
    };
    let (degree, j2) = match parse_str_field(s, j1, "degree") {
        Some(x) => x,
        None => {
            return None;
        },
    };
    let (field_of_study, j3) = match parse_str_field(s, j2, "field_of_study") {
        Some(x) => x,
        None => {
            return None;
        },
    };
    let (start_date, j4) = match parse_str_field(s, j3, "start_date") {
        Some(x) => x,
        None => {
            return None;
        },
    };
    let (end_date, j5) = match parse_str_field(s, j4, "end_date") {
        Some(x) => x,
        None => {
            return None;
        },
    };
    let (location, j6) = match parse_str_field(s, j5, "location") {
        Some(x) => x,
        None => {
            return None;
        },
    };
    let (description, j7) = match parse_str_field(s, j6, "description") {
        Some(x) => x,
        None => {
            return None;
        },
    };
    let (gpa, j8) = match parse_str_field(s, j7, "gpa") {
        Some(x) => x,
        None => {
            return None;
        },
    };
    let e = Education {
        institution,
        degree,
        field_of_study,
        start_date,
        end_date,
        location,
        description,
        gpa,
    };
    Some((e, j8))
}

/// Parses exactly `n` entries of a text list at index `i`.
fn parse_string_items(s: &str, i: usize, n: usize) -> (r: Option<(Vec<String>, usize)>)
    requires
        i <= s@.len(),
    ensures
        r matches Some(x) ==> i <= x.1 <= s@.len() && spec_parse_string_items(
            s@.skip(i as int),
            n as nat,
        ) == Some((x.0.deep_view(), s@.skip(x.1 as int))),
        r is None ==> spec_parse_string_items(s@.skip(i as int), n as nat) is None,
    decreases n,
{
    if n == 0 {
        let v: Vec<String> = Vec::new();
        proof {
            assert(v.deep_view() =~= Seq::<Seq<char>>::empty());
        }
        return Some((v, i));
    }
    let (x, j1) = match parse_str_field(s, i, "item") {
        Some(r) => r,
        None => {
            return None;
        },
    };
    let (mut v, j2) = match parse_string_items(s, j1, n - 1) {
        Some(r) => r,
        None => {
            return None;
        },
    };
    let ghost tail = v.deep_view();
    v.insert(0, x);
    proof {
        assert(v.deep_view() =~= seq![x@] + tail);
    }
    Some((v, j2))
}

/// Parses a work-experience record at index `i`.
fn parse_experience(s: &str, i: usize) -> (r: Option<(Experience, usize)>)
    requires
        i <= s@.len(),
    ensures
        r matches Some(x) ==> i <= x.1 <= s@.len() && spec_parse_experience(s@.skip(i as int))
            == Some((x.0@, s@.skip(x.1 as int))),
        r is None ==> spec_parse_experience(s@.skip(i as int)) is None,
{
    let (company, j1) = match parse_str_field(s, i, "company") {
        Some(x) => x,
        None => {
            return None;
        },
    };
    let (position, j2) = match parse_str_field(s, j1, "position") {
        Some(x) => x,
        None => {
            return None;
        },
    };
    let (start_date, j3) = match parse_str_field(s, j2, "start_date") {
        Some(x) => x,
        None => {
            return None;
        },
    };
    let (end_date, j4) = match parse_str_field(s, j3, "end_date") {
        Some(x) => x,
        None => {
            return None;
        },
    };
    let (location, j5) = match parse_str_field(s, j4, "location") {
        Some(x) => x,
        None => {
            return None;
        },
    };
    let (description, j6) = match parse_str_field(s, j5, "description") {
        Some(x) => x,
        None => {
            return None;
        },
    };
    let (na, j7) = match parse_num_field(s, j6, "achievements") {
        Some(x) => x,
        None => {
            return None;
        },
    };
    let (achievements, j8) = match parse_string_items(s, j7, na) {
        Some(x) => x,
        None => {
            return None;
        },
    };
    let (is_current, j9) = match parse_bool_field(s, j8, "is_current") {
        Some(x) => x,
        None => {
            return None;
        },
    };
    let x = Experience {
        company,
        position,
        start_date,
        end_date,
        location,
        description,
        achievements,
        is_current,
    };
    Some((x, j9))
}

/// Parses a skill record at index `i`.
fn parse_skill(s: &str, i: usize) -> (r: Option<(Skill, usize)>)
    requires
        i <= s@.len(),
    ensures
        r matches Some(x) ==> i <= x.1 <= s@.len() && spec_parse_skill(s@.skip(i as int)) == Some(
            (x.0@, s@.skip(x.1 as int)),
        ),
        r is None ==> spec_parse_skill(s@.skip(i as int)) is None,
{
    let (name, j1) = match parse_str_field(s, i, "name") {
        Some(x) => x,
        None => {
            return None;
        },
    };
    let (n, j2) = match parse_num_field(s, j1, "level") {
        Some(x) => x,
        None => {
            return None;
        },
    };
    if n > 255 {
        return None;
    }
    Some((Skill { name, level: n as u8 }, j2))
}

/// Parses an optional date at index `i`.
fn parse_opt_date(
    s: &str,
    i: usize,
    fname: &str,
    yname: &str,
    mname: &str,
    dname: &str,
) -> (r: Option<(Option<Date>, usize)>)
    requires
        i <= s@.len(),
    ensures
        r matches Some(x) ==> i <= x.1 <= s@.len() && spec_parse_opt_date(
            s@.skip(i as int),
            fname@,
            yname@,
            mname@,
            dname@,
        ) == Some((x.0, s@.skip(x.1 as int))),
        r is None ==> spec_parse_opt_date(
            s@.skip(i as int),
            fname@,
            yname@,
            mname@,
            dname@,
        ) is None,
{
    let (b, j1) = match parse_bool_field(s, i, fname) {
        Some(x) => x,
        None => {
            return None;
        },
    };
    let (y, j2) = match parse_num_field(s, j1, yname) {
        Some(x) => x,
        None => {
            return None;
        },
    };
    if y > u32::MAX as usize {
        return None;
    }
    let (m, j3) = match parse_num_field(s, j2, mname) {
        Some(x) => x,
        None => {
            return None;
        },
    };
    if m > 255 {
        return None;
    }
    let (d, j4) = match parse_num_field(s, j3, dname) {
        Some(x) => x,
        None => {
            return None;
        },
    };
    if d > 255 {
        return None;
    }
    let od = if b {
        Some(Date { year: y as u32, month: m as u8, day: d as u8 })
    } else {
        None
    };
    Some((od, j4))
}

/// Parses a project record at index `i`.
fn parse_project(s: &str, i: usize) -> (r: Option<(Project, usize)>)
    requires
        i <= s@.len(),
    ensures
        r matches Some(x) ==> i <= x.1 <= s@.len() && spec_parse_project(s@.skip(i as int))
            == Some((x.0@, s@.skip(x.1 as int))),
        r is None ==> spec_parse_project(s@.skip(i as int)) is None,
{
    let (name, j1) = match parse_str_field(s, i, "name") {
        Some(x) => x,
        None => {
            return None;
        },
    };
    let (description, j2) = match parse_str_field(s, j1, "description") {
        Some(x) => x,
        None => {
            return None;
        },
    };
    let (start_date, j3) = match parse_opt_date(
        s,
        j2,
        "has_start_date",
        "start_year",
        "start_month",
        "start_day",
    ) {
        Some(x) => x,
        None => {
            return None;
        },
    };
    let (end_date, j4) = match parse_opt_date(
        s,
        j3,
        "has_end_date",
        "end_year",
        "end_month",
        "end_day",
    ) {
        Some(x) => x,
        None => {
            return None;
        },
    };
    let (nt, j5) = match parse_num_field(s, j4, "technologies") {
        Some(x) => x,
        None => {
            return None;
        },
    };
    let (technologies, j6) = match parse_string_items(s, j5, nt) {
        Some(x) => x,
        None => {
            return None;
        },
    };
    let (url, j7) = match parse_str_field(s, j6, "url") {
        Some(x) => x,
        None => {
            return None;
        },
    };
    let (na, j8) = match parse_num_field(s, j7, "achievements") {
        Some(x) => x,
        None => {
            return None;
        },
    };
    let (achievements, j9) = match parse_string_items(s, j8, na) {
        Some(x) => x,
        None => {
            return None;
        },
    };
    let p = Project { name, description, start_date, end_date, technologies, url, achievements };
    Some((p, j9))
}

/// Parses exactly `n` education records at index `i`.
fn parse_education_items(s: &str, i: usize, n: usize) -> (r: Option<(Vec<Education>, usize)>)
    requires
        i <= s@.len(),
    ensures
        r matches Some(x) ==> i <= x.1 <= s@.len() && spec_parse_education_items(
            s@.skip(i as int),
            n as nat,
        ) == Some((x.0.deep_view(), s@.skip(x.1 as int))),
        r is None ==> spec_parse_education_items(s@.skip(i as int), n as nat) is None,
    decreases n,
{
    if n == 0 {
        let v: Vec<Education> = Vec::new();
        proof {
            assert(v.deep_view() =~= Seq::<crate::models::EducationView>::empty());
        }
        return Some((v, i));
    }
    let (x, j1) = match parse_education(s, i) {
        Some(r) => r,
        None => {
            return None;
        },
    };
    let (mut v, j2) = match parse_education_items(s, j1, n - 1) {
        Some(r) => r,
        None => {
            return None;
        },
    };
    let ghost tail = v.deep_view();
    v.insert(0, x);
    proof {
        assert(v.deep_view() =~= seq![x@] + tail);
    }
    Some((v, j2))
}

/// Parses exactly `n` work-experience records at index `i`.
fn parse_experience_items(s: &str, i: usize, n: usize) -> (r: Option<(Vec<Experience>, usize)>)
    requires
        i <= s@.len(),
    ensures
        r matches Some(x) ==> i <= x.1 <= s@.len() && spec_parse_experience_items(
            s@.skip(i as int),
            n as nat,
        ) == Some((x.0.deep_view(), s@.skip(x.1 as int))),
        r is None ==> spec_parse_experience_items(s@.skip(i as int), n as nat) is None,
    decreases n,
{
    if n == 0 {
        let v: Vec<Experience> = Vec::new();
        proof {
            assert(v.deep_view() =~= Seq::<crate::models::ExperienceView>::empty());
        }
        return Some((v, i));
    }
    let (x, j1) = match parse_experience(s, i) {
        Some(r) => r,
        None => {
            return None;
        },
    };
    let (mut v, j2) = match parse_experience_items(s, j1, n - 1) {
        Some(r) => r,
        None => {
            return None;
        },
    };
    let ghost tail = v.deep_view();
    v.insert(0, x);
    proof {
        assert(v.deep_view() =~= seq![x@] + tail);
    }
    Some((v, j2))
}

/// Parses exactly `n` skill records at index `i`.
fn parse_skill_items(s: &str, i: usize, n: usize) -> (r: Option<(Vec<Skill>, usize)>)
    requires
        i <= s@.len(),
    ensures
        r matches Some(x) ==> i <= x.1 <= s@.len() && spec_parse_skill_items(
            s@.skip(i as int),
            n as nat,
        ) == Some((x.0.deep_view(), s@.skip(x.1 as int))),
        r is None ==> spec_parse_skill_items(s@.skip(i as int), n as nat) is None,
    decreases n,
{
    if n == 0 {
        let v: Vec<Skill> = Vec::new();
        proof {
            assert(v.deep_view() =~= Seq::<crate::models::SkillView>::empty());
        }
        return Some((v, i));
    }
    let (x, j1) = match parse_skill(s, i) {
        Some(r) => r,
        None => {
            return None;
        },
    };
    let (mut v, j2) = match parse_skill_items(s, j1, n - 1) {
        Some(r) => r,
        None => {
            return None;
        },
    };
    let ghost tail = v.deep_view();
    v.insert(0, x);
    proof {
        assert(v.deep_view() =~= seq![x@] + tail);
    }
    Some((v, j2))
}

/// Parses exactly `n` project records at index `i`.
fn parse_project_items(s: &str, i: usize, n: usize) -> (r: Option<(Vec<Project>, usize)>)
    requires
        i <= s@.len(),
    ensures
        r matches Some(x) ==> i <= x.1 <= s@.len() && spec_parse_project_items(
            s@.skip(i as int),
            n as nat,
        ) == Some((x.0.deep_view(), s@.skip(x.1 as int))),
        r is None ==> spec_parse_project_items(s@.skip(i as int), n as nat) is None,
    decreases n,
{
    if n == 0 {
        let v: Vec<Project> = Vec::new();
        proof {
            assert(v.deep_view() =~= Seq::<crate::models::ProjectView>::empty());
        }
        return Some((v, i));
    }
    let (x, j1) = match parse_project(s, i) {
        Some(r) => r,
        None => {
            return None;
        },
    };
    let (mut v, j2) = match parse_project_items(s, j1, n - 1) {
        Some(r) => r,
        None => {
            return None;
        },
    };
    let ghost tail = v.deep_view();
    v.insert(0, x);
    proof {
        assert(v.deep_view() =~= seq![x@] + tail);
    }
    Some((v, j2))
}

/// The theme a number is read back as.
fn theme_of_code(c: usize) -> (r: Option<ResumeTheme>)
    ensures
        r == theme_from_code(c as nat),
{
    if c == 0 {
        Some(ResumeTheme::Professional)
    } else if c == 1 {
        Some(ResumeTheme::Minimal)
    } else if c == 2 {
        Some(ResumeTheme::Creative)
    } else if c == 3 {
        Some(ResumeTheme::Modern)
    } else {
        None
    }
}

/// Parses a whole document at index `i`.
fn parse_resume(s: &str, i: usize) -> (r: Option<(Resume, usize)>)
    requires
        i <= s@.len(),
    ensures
        r matches Some(x) ==> i <= x.1 <= s@.len() && spec_parse_resume(s@.skip(i as int))
            == Some((x.0@, s@.skip(x.1 as int))),
        r is None ==> spec_parse_resume(s@.skip(i as int)) is None,
{
    let (personal_info, j1) = match parse_personal_info(s, i) {
        Some(x) => x,
        None => {
            return None;
        },
    };
    let (n1, j2) = match parse_num_field(s, j1, "education") {
        Some(x) => x,
        None => {
            return None;
        },
    };
    let (education, j3) = match parse_education_items(s, j2, n1) {
        Some(x) => x,
        None => {
            return None;
        },
    };
    let (n2, j4) = match parse_num_field(s, j3, "experience") {
        Some(x) => x,
        None => {
            return None;
        },
    };
    let (experience, j5) = match parse_experience_items(s, j4, n2) {
        Some(x) => x,
        None => {
            return None;
        },
    };
    let (n3, j6) = match parse_num_field(s, j5, "skills") {
        Some(x) => x,
        None => {
            return None;
        },
    };
    let (skill_list, j7) = match parse_skill_items(s, j6, n3) {
        Some(x) => x,
        None => {
            return None;
        },
    };
    let (n4, j8) = match parse_num_field(s, j7, "projects") {
        Some(x) => x,
        None => {
            return None;
        },
    };
    let (projects, j9) = match parse_project_items(s, j8, n4) {
        Some(x) => x,
        None => {
            return None;
        },
    };
    let (c, j10) = match parse_num_field(s, j9, "theme") {
        Some(x) => x,
        None => {
            return None;
        },
    };
    let theme = match theme_of_code(c) {
        Some(t) => t,
        None => {
            return None;
        },
    };
    let d = Resume {
        personal_info,
        education,
        experience,
        skills: Skills { skill_list },
        projects,
        theme,
    };
    Some((d, j10))
}

/// Parses a whole snapshot: a document that uses up all of `s`.
pub fn parse_document(s: &str) -> (r: Option<Resume>)
    ensures
        r matches Some(d) ==> spec_parse_document(s@) == Some(d@),
        r is None ==> spec_parse_document(s@) is None,
{
    proof {
        assert(s@.skip(0) =~= s@);
    }
    let (d, j) = match parse_resume(s, 0) {
        Some(x) => x,
        None => {
            return None;
        },
    };
    let sl = s.unicode_len();
    if j == sl {
        proof {
            assert(s@.skip(j as int).len() == 0);
        }
        Some(d)
    } else {
        proof {
            assert(s@.skip(j as int).len() != 0);
        }
        None
    }
}

} // verus!
