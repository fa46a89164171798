//! The persisted snapshot format, at the mathematical level.
//!
//! A snapshot is field-named structured text: every field is one line
//! `name:value`, where a text value is written with its character count as
//! `name:count:payload` so that payloads may hold any characters, and lists
//! are written as a count line followed by their entries.  This module
//! defines the renderer and the parser as spec functions and proves the
//! round-trip law: parsing a rendered document yields exactly that document.

use vstd::prelude::*;

use crate::models::{
    Date, EducationView, ExperienceView, PersonalInfoView, ProjectView, ResumeTheme, ResumeView,
    SkillView, SkillsView,
};

verus! {

// ---------------------------------------------------------------------------
// Characters and decimal numbers
// ---------------------------------------------------------------------------

/// Whether `c` is a decimal digit.
pub open spec fn is_digit_char(c: char) -> bool {
    c == '0' || c == '1' || c == '2' || c == '3' || c == '4' || c == '5' || c == '6' || c == '7'
        || c == '8' || c == '9'
}

/// The numeric value of a digit character.
pub open spec fn digit_val(c: char) -> nat {
    if c == '0' {
        0
    } else if c == '1' {
        1
    } else if c == '2' {
        2
    } else if c == '3' {
        3
    } else if c == '4' {
        4
    } else if c == '5' {
        5
    } else if c == '6' {
        6
    } else if c == '7' {
        7
    } else if c == '8' {
        8
    } else {
        9
    }
}

/// The text of a single digit.
pub open spec fn spec_digit(d: nat) -> Seq<char> {
    if d == 0 {
        "0"@
    } else if d == 1 {
        "1"@
    } else if d == 2 {
        "2"@
    } else if d == 3 {
        "3"@
    } else if d == 4 {
        "4"@
    } else if d == 5 {
        "5"@
    } else if d == 6 {
        "6"@
    } else if d == 7 {
        "7"@
    } else if d == 8 {
        "8"@
    } else {
        "9"@
    }
}

/// The decimal text of `n`, most significant digit first, with no sign and
/// no leading zero (except for zero itself).
pub open spec fn spec_dec(n: nat) -> Seq<char>
    decreases n,
{
    if n < 10 {
        spec_digit(n)
    } else {
        spec_dec(n / 10) + spec_digit(n % 10)
    }
}

/// Each digit's text is one digit character carrying its value.
pub proof fn lemma_digit_atoms(d: nat)
    requires
        d < 10,
    ensures
        spec_digit(d).len() == 1,
        is_digit_char(spec_digit(d)[0]),
        digit_val(spec_digit(d)[0]) == d,
{
    reveal_strlit("0");
    reveal_strlit("1");
    reveal_strlit("2");
    reveal_strlit("3");
    reveal_strlit("4");
    reveal_strlit("5");
    reveal_strlit("6");
    reveal_strlit("7");
    reveal_strlit("8");
    reveal_strlit("9");
}

/// The separators used by the format are single characters and not digits.
pub proof fn lemma_separator_atoms()
    ensures
        ":"@.len() == 1,
        !is_digit_char(":"@[0]),
        "\n"@.len() == 1,
        !is_digit_char("\n"@[0]),
{
    reveal_strlit(":");
    reveal_strlit("\n");
}

/// Decimal text always starts with a digit.
pub proof fn lemma_dec_starts_with_digit(n: nat)
    ensures
        spec_dec(n).len() >= 1,
        is_digit_char(spec_dec(n)[0]),
    decreases n,
{
    if n < 10 {
        lemma_digit_atoms(n);
    } else {
        lemma_dec_starts_with_digit(n / 10);
    }
}

// ---------------------------------------------------------------------------
// Parsing primitives
// ---------------------------------------------------------------------------

/// Consumes the exact literal `lit` from the front of `s`.
pub open spec fn spec_parse_lit(s: Seq<char>, lit: Seq<char>) -> Option<Seq<char>> {
    if lit.len() <= s.len() && s.take(lit.len() as int) == lit {
        Some(s.skip(lit.len() as int))
    } else {
        None
    }
}

/// Parsing a literal off the front of itself leaves exactly the rest.
pub proof fn lemma_parse_lit(lit: Seq<char>, rest: Seq<char>)
    ensures
        spec_parse_lit(lit + rest, lit) == Some(rest),
{
    assert((lit + rest).take(lit.len() as int) =~= lit);
    assert((lit + rest).skip(lit.len() as int) =~= rest);
}

/// Ten to the power `k`.
pub open spec fn pow10(k: nat) -> nat
    decreases k,
{
    if k == 0 {
        1
    } else {
        10 * pow10((k - 1) as nat)
    }
}

/// Consumes digits greedily, accumulating their value onto `acc`; fails when
/// the value would not fit in a machine word.
pub open spec fn spec_parse_digits(s: Seq<char>, acc: nat) -> Option<(nat, Seq<char>)>
    decreases s.len(),
{
    if s.len() > 0 && is_digit_char(s[0]) {
        let acc2 = acc * 10 + digit_val(s[0]);
        if acc2 <= usize::MAX {
            spec_parse_digits(s.skip(1), acc2)
        } else {
            None
        }
    } else {
        Some((acc, s))
    }
}

/// Consumes a non-empty run of digits as a decimal number.
pub open spec fn spec_parse_num(s: Seq<char>) -> Option<(nat, Seq<char>)> {
    if s.len() > 0 && is_digit_char(s[0]) {
        spec_parse_digits(s, 0)
    } else {
        None
    }
}

/// Consuming the decimal text of `m` multiplies the accumulator by the
/// length of that text in powers of ten and adds `m`.
proof fn lemma_parse_digits_dec(m: nat, acc: nat, rest: Seq<char>)
    requires
        acc * pow10(spec_dec(m).len() as nat) + m <= usize::MAX,
    ensures
        spec_parse_digits(spec_dec(m) + rest, acc) == spec_parse_digits(
            rest,
            acc * pow10(spec_dec(m).len() as nat) + m,
        ),
    decreases m,
{
    if m < 10 {
        lemma_digit_atoms(m);
        let s = spec_dec(m) + rest;
        assert(s[0] == spec_dec(m)[0]);
        assert(pow10(0) == 1);
        assert(pow10(1) == 10);
        assert(s.skip(1) =~= rest);
    } else {
        let hi = m / 10;
        let lo = m % 10;
        let ld = spec_dec(hi).len() as nat;
        lemma_digit_atoms(lo);
        assert(spec_dec(m) == spec_dec(hi) + spec_digit(lo));
        assert(spec_dec(m).len() == ld + 1);
        assert(pow10((ld + 1) as nat) == 10 * pow10(ld));
        assert((spec_dec(hi) + spec_digit(lo)) + rest =~= spec_dec(hi) + (spec_digit(lo) + rest));
        let whole = (acc * pow10((ld + 1) as nat) + m) as nat;
        let mid = (acc * pow10(ld) + hi) as nat;
        assert(mid * 10 + lo == whole) by (nonlinear_arith)
            requires
                whole == acc * (10 * pow10(ld)) + m,
                mid == acc * pow10(ld) + hi,
                hi == m / 10,
                lo == m % 10,
                m >= 10,
        ;
        assert(mid <= whole) by (nonlinear_arith)
            requires
                mid * 10 + lo == whole,
                mid >= 0,
                lo >= 0,
        ;
        lemma_parse_digits_dec(hi, acc, spec_digit(lo) + rest);
        assert(spec_parse_digits(spec_dec(m) + rest, acc) == spec_parse_digits(
            spec_digit(lo) + rest,
            mid,
        ));
        assert(spec_dec(lo) == spec_digit(lo));
        assert(pow10(0) == 1);
        assert(pow10(1) == 10);
        lemma_parse_digits_dec(lo, mid, rest);
        assert(spec_parse_digits(spec_digit(lo) + rest, mid) == spec_parse_digits(
            rest,
            mid * 10 + lo,
        ));
    }
}

/// Round trip for numbers: parsing the decimal text of `n` followed by text
/// that does not start with a digit yields exactly `n` and that text.
pub proof fn lemma_parse_num_dec(n: nat, rest: Seq<char>)
    requires
        n <= usize::MAX,
        rest.len() == 0 || !is_digit_char(rest[0]),
    ensures
        spec_parse_num(spec_dec(n) + rest) == Some((n, rest)),
{
    lemma_dec_starts_with_digit(n);
    let s = spec_dec(n) + rest;
    assert(s[0] == spec_dec(n)[0]);
    assert(pow10(spec_dec(n).len() as nat) >= 1) by {
        lemma_pow10_positive(spec_dec(n).len() as nat);
    }
    lemma_parse_digits_dec(n, 0, rest);
    assert(spec_parse_digits(rest, n) == Some((n, rest)));
}

/// Powers of ten are positive.
proof fn lemma_pow10_positive(k: nat)
    ensures
        pow10(k) >= 1,
    decreases k,
{
    if k > 0 {
        lemma_pow10_positive((k - 1) as nat);
    }
}

// ---------------------------------------------------------------------------
// Fields
// ---------------------------------------------------------------------------

/// Whether a piece of text fits in one in-memory string.
pub open spec fn fits_str(s: Seq<char>) -> bool {
    s.len() <= usize::MAX
}

/// A text field: `name:count:payload` and a line break.
pub open spec fn spec_render_str_field(name: Seq<char>, payload: Seq<char>) -> Seq<char> {
    name + ":"@ + spec_dec(payload.len() as nat) + ":"@ + payload + "\n"@
}

/// Parses a text field named `name`, returning its payload.
pub open spec fn spec_parse_str_field(s: Seq<char>, name: Seq<char>) -> Option<
    (Seq<char>, Seq<char>),
> {
    match spec_parse_lit(s, name) {
        None => None,
        Some(s1) => match spec_parse_lit(s1, ":"@) {
            None => None,
            Some(s2) => match spec_parse_num(s2) {
                None => None,
                Some((n, s3)) => match spec_parse_lit(s3, ":"@) {
                    None => None,
                    Some(s4) => if n <= s4.len() {
                        match spec_parse_lit(s4.skip(n as int), "\n"@) {
                            None => None,
                            Some(s5) => Some((s4.take(n as int), s5)),
                        }
                    } else {
                        None
                    },
                },
            },
        },
    }
}

/// Round trip for text fields.
pub proof fn lemma_parse_str_field(name: Seq<char>, payload: Seq<char>, rest: Seq<char>)
    requires
        fits_str(payload),
    ensures
        spec_parse_str_field(spec_render_str_field(name, payload) + rest, name) == Some(
            (payload, rest),
        ),
{
    lemma_separator_atoms();
    let num = spec_dec(payload.len() as nat);
    let t5 = "\n"@ + rest;
    let t4 = payload + t5;
    let t3 = ":"@ + t4;
    let t2 = num + t3;
    let t1 = ":"@ + t2;
    assert(spec_render_str_field(name, payload) + rest =~= name + t1);
    lemma_parse_lit(name, t1);
    lemma_parse_lit(":"@, t2);
    assert(t3.len() >= 1 && !is_digit_char(t3[0]));
    lemma_parse_num_dec(payload.len() as nat, t3);
    lemma_parse_lit(":"@, t4);
    assert(t4.take(payload.len() as int) =~= payload);
    assert(t4.skip(payload.len() as int) =~= t5);
    lemma_parse_lit("\n"@, rest);
}

/// A number field: `name:value` and a line break.
pub open spec fn spec_render_num_field(name: Seq<char>, n: nat) -> Seq<char> {
    name + ":"@ + spec_dec(n) + "\n"@
}

/// Parses a number field named `name`.
pub open spec fn spec_parse_num_field(s: Seq<char>, name: Seq<char>) -> Option<(nat, Seq<char>)> {
    match spec_parse_lit(s, name) {
        None => None,
        Some(s1) => match spec_parse_lit(s1, ":"@) {
            None => None,
            Some(s2) => match spec_parse_num(s2) {
                None => None,
                Some((n, s3)) => match spec_parse_lit(s3, "\n"@) {
                    None => None,
                    Some(s4) => Some((n, s4)),
                },
            },
        },
    }
}

/// Round trip for number fields.
pub proof fn lemma_parse_num_field(name: Seq<char>, n: nat, rest: Seq<char>)
    requires
        n <= usize::MAX,
    ensures
        spec_parse_num_field(spec_render_num_field(name, n) + rest, name) == Some((n, rest)),
{
    lemma_separator_atoms();
    let t3 = "\n"@ + rest;
    let t2 = spec_dec(n) + t3;
    let t1 = ":"@ + t2;
    assert(spec_render_num_field(name, n) + rest =~= name + t1);
    lemma_parse_lit(name, t1);
    lemma_parse_lit(":"@, t2);
    assert(t3.len() >= 1 && !is_digit_char(t3[0]));
    lemma_parse_num_dec(n, t3);
    lemma_parse_lit("\n"@, rest);
}

/// A flag field holds 0 or 1.
pub open spec fn spec_render_bool_field(name: Seq<char>, b: bool) -> Seq<char> {
    spec_render_num_field(name, if b {
        1
    } else {
        0
    })
}

/// Parses a flag field named `name`.
pub open spec fn spec_parse_bool_field(s: Seq<char>, name: Seq<char>) -> Option<(bool, Seq<char>)> {
    match spec_parse_num_field(s, name) {
        None => None,
        Some((n, s1)) => if n <= 1 {
            Some((n == 1, s1))
        } else {
            None
        },
    }
}

/// Round trip for flag fields.
pub proof fn lemma_parse_bool_field(name: Seq<char>, b: bool, rest: Seq<char>)
    ensures
        spec_parse_bool_field(spec_render_bool_field(name, b) + rest, name) == Some((b, rest)),
{
    lemma_parse_num_field(name, if b { 1 } else { 0 }, rest);
}

/// Concatenation of text is associative.
pub proof fn lemma_assoc(a: Seq<char>, b: Seq<char>, c: Seq<char>)
    ensures
        (a + b) + c == a + (b + c),
{
    assert((a + b) + c =~= a + (b + c));
}

// ---------------------------------------------------------------------------
// Lists of text values
// ---------------------------------------------------------------------------

/// Whether a list of text values fits in memory.
pub open spec fn fits_string_list(items: Seq<Seq<char>>) -> bool {
    items.len() <= usize::MAX && forall|i: int|
        0 <= i < items.len() ==> fits_str(#[trigger] items[i])
}

/// The entries of a text list, each as an `item` field.
pub open spec fn spec_render_string_items(items: Seq<Seq<char>>) -> Seq<char>
    decreases items.len(),
{
    if items.len() == 0 {
        Seq::empty()
    } else {
        spec_render_str_field("item"@, items[0]) + spec_render_string_items(items.drop_first())
    }
}

/// Parses exactly `n` entries of a text list.
pub open spec fn spec_parse_string_items(s: Seq<char>, n: nat) -> Option<
    (Seq<Seq<char>>, Seq<char>),
>
    decreases n,
{
    if n == 0 {
        Some((Seq::empty(), s))
    } else {
        match spec_parse_str_field(s, "item"@) {
            None => None,
            Some((x, s1)) => match spec_parse_string_items(s1, (n - 1) as nat) {
                None => None,
                Some((xs, s2)) => Some((seq![x] + xs, s2)),
            },
        }
    }
}

/// Round trip for the entries of a text list.
pub proof fn lemma_parse_string_items(items: Seq<Seq<char>>, rest: Seq<char>)
    requires
        forall|i: int| 0 <= i < items.len() ==> fits_str(#[trigger] items[i]),
    ensures
        spec_parse_string_items(spec_render_string_items(items) + rest, items.len()) == Some(
            (items, rest),
        ),
    decreases items.len(),
{
    if items.len() == 0 {
        assert(spec_render_string_items(items) + rest =~= rest);
        assert(items =~= Seq::<Seq<char>>::empty());
    } else {
        let hd = items[0];
        let tl = items.drop_first();
        lemma_assoc(spec_render_str_field("item"@, hd), spec_render_string_items(tl), rest);
        lemma_parse_str_field("item"@, hd, spec_render_string_items(tl) + rest);
        assert(forall|i: int| 0 <= i < tl.len() ==> fits_str(#[trigger] tl[i])) by {
            assert(forall|i: int| 0 <= i < tl.len() ==> tl[i] == items[i + 1]);
        }
        lemma_parse_string_items(tl, rest);
        assert(seq![hd] + tl =~= items);
    }
}

/// A text list: a count field followed by the entries.
pub open spec fn spec_render_string_list(name: Seq<char>, items: Seq<Seq<char>>) -> Seq<char> {
    spec_render_num_field(name, items.len() as nat) + spec_render_string_items(items)
}

/// Parses a text list named `name`.
pub open spec fn spec_parse_string_list(s: Seq<char>, name: Seq<char>) -> Option<
    (Seq<Seq<char>>, Seq<char>),
> {
    match spec_parse_num_field(s, name) {
        None => None,
        Some((n, s1)) => spec_parse_string_items(s1, n),
    }
}

/// Round trip for text lists.
pub proof fn lemma_parse_string_list(name: Seq<char>, items: Seq<Seq<char>>, rest: Seq<char>)
    requires
        fits_string_list(items),
    ensures
        spec_parse_string_list(spec_render_string_list(name, items) + rest, name) == Some(
            (items, rest),
        ),
{
    lemma_assoc(
        spec_render_num_field(name, items.len() as nat),
        spec_render_string_items(items),
        rest,
    );
    lemma_parse_num_field(name, items.len() as nat, spec_render_string_items(items) + rest);
    lemma_parse_string_items(items, rest);
}

// ---------------------------------------------------------------------------
// Records
// ---------------------------------------------------------------------------

/// Whether a personal-information record fits in memory.
pub open spec fn fits_personal_info(p: PersonalInfoView) -> bool {
    fits_str(p.name) && fits_str(p.email) && fits_str(p.phone) && fits_str(p.website) && fits_str(
        p.linkedin,
    ) && fits_str(p.github) && fits_str(p.location) && fits_str(p.summary)
}

/// The personal-information record as text.
pub open spec fn spec_render_personal_info(p: PersonalInfoView) -> Seq<char> {
    spec_render_str_field("name"@, p.name) + spec_render_str_field("email"@, p.email)
        + spec_render_str_field("phone"@, p.phone) + spec_render_str_field("website"@, p.website)
        + spec_render_str_field("linkedin"@, p.linkedin) + spec_render_str_field(
        "github"@,
        p.github,
    ) + spec_render_str_field("location"@, p.location) + spec_render_str_field(
        "summary"@,
        p.summary,
    )
}

/// Parses a personal-information record.
pub open spec fn spec_parse_personal_info(s: Seq<char>) -> Option<(PersonalInfoView, Seq<char>)> {
    match spec_parse_str_field(s, "name"@) {
        None => None,
        Some((name, s1)) => match spec_parse_str_field(s1, "email"@) {
            None => None,
            Some((email, s2)) => match spec_parse_str_field(s2, "phone"@) {
                None => None,
                Some((phone, s3)) => match spec_parse_str_field(s3, "website"@) {
                    None => None,
                    Some((website, s4)) => match spec_parse_str_field(s4, "linkedin"@) {
                        None => None,
                        Some((linkedin, s5)) => match spec_parse_str_field(s5, "github"@) {
                            None => None,
                            Some((github, s6)) => match spec_parse_str_field(s6, "location"@) {
                                None => None,
                                Some((location, s7)) => match spec_parse_str_field(
                                    s7,
                                    "summary"@,
                                ) {
                                    None => None,
                                    Some((summary, s8)) => Some(
                                        (
                                            PersonalInfoView {
                                                name,
                                                email,
                                                phone,
                                                website,
                                                linkedin,
                                                github,
                                                location,
                                                summary,
                                            },
                                            s8,
                                        ),
                                    ),
                                },
                            },
                        },
                    },
                },
            },
        },
    }
}

/// Round trip for the personal-information record.
pub proof fn lemma_parse_personal_info(p: PersonalInfoView, rest: Seq<char>)
    requires
        fits_personal_info(p),
    ensures
        spec_parse_personal_info(spec_render_personal_info(p) + rest) == Some((p, rest)),
{
    let f1 = spec_render_str_field("name"@, p.name);
    let f2 = spec_render_str_field("email"@, p.email);
    let f3 = spec_render_str_field("phone"@, p.phone);
    let f4 = spec_render_str_field("website"@, p.website);
    let f5 = spec_render_str_field("linkedin"@, p.linkedin);
    let f6 = spec_render_str_field("github"@, p.github);
    let f7 = spec_render_str_field("location"@, p.location);
    let f8 = spec_render_str_field("summary"@, p.summary);
    let t8 = f8 + rest;
    let t7 = f7 + t8;
    let t6 = f6 + t7;
    let t5 = f5 + t6;
    let t4 = f4 + t5;
    let t3 = f3 + t4;
    let t2 = f2 + t3;
    lemma_assoc(f1 + f2 + f3 + f4 + f5 + f6 + f7, f8, rest);
    lemma_assoc(f1 + f2 + f3 + f4 + f5 + f6, f7, t8);
    lemma_assoc(f1 + f2 + f3 + f4 + f5, f6, t7);
    lemma_assoc(f1 + f2 + f3 + f4, f5, t6);
    lemma_assoc(f1 + f2 + f3, f4, t5);
    lemma_assoc(f1 + f2, f3, t4);
    lemma_assoc(f1, f2, t3);
    lemma_parse_str_field("name"@, p.name, t2);
    lemma_parse_str_field("email"@, p.email, t3);
    lemma_parse_str_field("phone"@, p.phone, t4);
    lemma_parse_str_field("website"@, p.website, t5);
    lemma_parse_str_field("linkedin"@, p.linkedin, t6);
    lemma_parse_str_field("github"@, p.github, t7);
    lemma_parse_str_field("location"@, p.location, t8);
    lemma_parse_str_field("summary"@, p.summary, rest);
}

/// Whether an education record fits in memory.
pub open spec fn fits_education(e: EducationView) -> bool {
    fits_str(e.institution) && fits_str(e.degree) && fits_str(e.field_of_study) && fits_str(
        e.start_date,
    ) && fits_str(e.end_date) && fits_str(e.location) && fits_str(e.description) && fits_str(e.gpa)
}

/// An education record as text.
pub open spec fn spec_render_education(e: EducationView) -> Seq<char> {
    spec_render_str_field("institution"@, e.institution) + spec_render_str_field(
        "degree"@,
        e.degree,
    ) + spec_render_str_field("field_of_study"@, e.field_of_study) + spec_render_str_field(
        "start_date"@,
        e.start_date,
    ) + spec_render_str_field("end_date"@, e.end_date) + spec_render_str_field(
        "location"@,
        e.location,
    ) + spec_render_str_field("description"@, e.description) + spec_render_str_field(
        "gpa"@,
        e.gpa,
    )
}

/// Parses an education record.
pub open spec fn spec_parse_education(s: Seq<char>) -> Option<(EducationView, Seq<char>)> {
    match spec_parse_str_field(s, "institution"@) {
        None => None,
        Some((institution, s1)) => match spec_parse_str_field(s1, "degree"@) {
            None => None,
            Some((degree, s2)) => match spec_parse_str_field(s2, "field_of_study"@) {
                None => None,
                Some((field_of_study, s3)) => match spec_parse_str_field(s3, "start_date"@) {
                    None => None,
                    Some((start_date, s4)) => match spec_parse_str_field(s4, "end_date"@) {
                        None => None,
                        Some((end_date, s5)) => match spec_parse_str_field(s5, "location"@) {
                            None => None,
                            Some((location, s6)) => match spec_parse_str_field(
                                s6,
                                "description"@,
                            ) {
                                None => None,
                                Some((description, s7)) => match spec_parse_str_field(
                                    s7,
                                    "gpa"@,
                                ) {
                                    None => None,
                                    Some((gpa, s8)) => Some(
                                        (
                                            EducationView {
                                                institution,
                                                degree,
                                                field_of_study,
                                                start_date,
                                                end_date,
                                                location,
                                                description,
                                                gpa,
                                            },
                                            s8,
                                        ),
                                    ),
                                },
                            },
                        },
                    },
                },
            },
        },
    }
}

/// Round trip for education records.
pub proof fn lemma_parse_education(e: EducationView, rest: Seq<char>)
    requires
        fits_education(e),
    ensures
        spec_parse_education(spec_render_education(e) + rest) == Some((e, rest)),
{
    let f1 = spec_render_str_field("institution"@, e.institution);
    let f2 = spec_render_str_field("degree"@, e.degree);
    let f3 = spec_render_str_field("field_of_study"@, e.field_of_study);
    let f4 = spec_render_str_field("start_date"@, e.start_date);
    let f5 = spec_render_str_field("end_date"@, e.end_date);
    let f6 = spec_render_str_field("location"@, e.location);
    let f7 = spec_render_str_field("description"@, e.description);
    let f8 = spec_render_str_field("gpa"@, e.gpa);
    let t8 = f8 + rest;
    let t7 = f7 + t8;
    let t6 = f6 + t7;
    let t5 = f5 + t6;
    let t4 = f4 + t5;
    let t3 = f3 + t4;
    let t2 = f2 + t3;
    lemma_assoc(f1 + f2 + f3 + f4 + f5 + f6 + f7, f8, rest);
    lemma_assoc(f1 + f2 + f3 + f4 + f5 + f6, f7, t8);
    lemma_assoc(f1 + f2 + f3 + f4 + f5, f6, t7);
    lemma_assoc(f1 + f2 + f3 + f4, f5, t6);
    lemma_assoc(f1 + f2 + f3, f4, t5);
    lemma_assoc(f1 + f2, f3, t4);
    lemma_assoc(f1, f2, t3);
    lemma_parse_str_field("institution"@, e.institution, t2);
    lemma_parse_str_field("degree"@, e.degree, t3);
    lemma_parse_str_field("field_of_study"@, e.field_of_study, t4);
    lemma_parse_str_field("start_date"@, e.start_date, t5);
    lemma_parse_str_field("end_date"@, e.end_date, t6);
    lemma_parse_str_field("location"@, e.location, t7);
    lemma_parse_str_field("description"@, e.description, t8);
    lemma_parse_str_field("gpa"@, e.gpa, rest);
}

/// Whether a skill record fits in memory.
pub open spec fn fits_skill(k: SkillView) -> bool {
    fits_str(k.name)
}

/// A skill record as text.
pub open spec fn spec_render_skill(k: SkillView) -> Seq<char> {
    spec_render_str_field("name"@, k.name) + spec_render_num_field("level"@, k.level as nat)
}

/// Parses a skill record.
pub open spec fn spec_parse_skill(s: Seq<char>) -> Option<(SkillView, Seq<char>)> {
    match spec_parse_str_field(s, "name"@) {
        None => None,
        Some((name, s1)) => match spec_parse_num_field(s1, "level"@) {
            None => None,
            Some((n, s2)) => if n <= u8::MAX {
                Some((SkillView { name, level: n as u8 }, s2))
            } else {
                None
            },
        },
    }
}

/// Round trip for skill records.
pub proof fn lemma_parse_skill(k: SkillView, rest: Seq<char>)
    requires
        fits_skill(k),
    ensures
        spec_parse_skill(spec_render_skill(k) + rest) == Some((k, rest)),
{
    let f1 = spec_render_str_field("name"@, k.name);
    let f2 = spec_render_num_field("level"@, k.level as nat);
    let t2 = f2 + rest;
    lemma_assoc(f1, f2, rest);
    lemma_parse_str_field("name"@, k.name, t2);
    lemma_parse_num_field("level"@, k.level as nat, rest);
}

/// Whether a work-experience record fits in memory.
pub open spec fn fits_experience(x: ExperienceView) -> bool {
    fits_str(x.company) && fits_str(x.position) && fits_str(x.start_date) && fits_str(x.end_date)
        && fits_str(x.location) && fits_str(x.description) && fits_string_list(x.achievements)
}

/// A work-experience record as text.
pub open spec fn spec_render_experience(x: ExperienceView) -> Seq<char> {
    spec_render_str_field("company"@, x.company) + spec_render_str_field("position"@, x.position)
        + spec_render_str_field("start_date"@, x.start_date) + spec_render_str_field(
        "end_date"@,
        x.end_date,
    ) + spec_render_str_field("location"@, x.location) + spec_render_str_field(
        "description"@,
        x.description,
    ) + spec_render_string_list("achievements"@, x.achievements) + spec_render_bool_field(
        "is_current"@,
        x.is_current,
    )
}

/// Parses a work-experience record.
pub open spec fn spec_parse_experience(s: Seq<char>) -> Option<(ExperienceView, Seq<char>)> {
    match spec_parse_str_field(s, "company"@) {
        None => None,
        Some((company, s1)) => match spec_parse_str_field(s1, "position"@) {
            None => None,
            Some((position, s2)) => match spec_parse_str_field(s2, "start_date"@) {
                None => None,
                Some((start_date, s3)) => match spec_parse_str_field(s3, "end_date"@) {
                    None => None,
                    Some((end_date, s4)) => match spec_parse_str_field(s4, "location"@) {
                        None => None,
                        Some((location, s5)) => match spec_parse_str_field(s5, "description"@) {
                            None => None,
                            Some((description, s6)) => match spec_parse_string_list(
                                s6,
                                "achievements"@,
                            ) {
                                None => None,
                                Some((achievements, s7)) => match spec_parse_bool_field(
                                    s7,
                                    "is_current"@,
                                ) {
                                    None => None,
                                    Some((is_current, s8)) => Some(
                                        (
                                            ExperienceView {
                                                company,
                                                position,
                                                start_date,
                                                end_date,
                                                location,
                                                description,
                                                achievements,
                                                is_current,
                                            },
                                            s8,
                                        ),
                                    ),
                                },
                            },
                        },
                    },
                },
            },
        },
    }
}

/// Round trip for work-experience records.
pub proof fn lemma_parse_experience(x: ExperienceView, rest: Seq<char>)
    requires
        fits_experience(x),
    ensures
        spec_parse_experience(spec_render_experience(x) + rest) == Some((x, rest)),
{
    let f1 = spec_render_str_field("company"@, x.company);
    let f2 = spec_render_str_field("position"@, x.position);
    let f3 = spec_render_str_field("start_date"@, x.start_date);
    let f4 = spec_render_str_field("end_date"@, x.end_date);
    let f5 = spec_render_str_field("location"@, x.location);
    let f6 = spec_render_str_field("description"@, x.description);
    let f7 = spec_render_string_list("achievements"@, x.achievements);
    let f8 = spec_render_bool_field("is_current"@, x.is_current);
    let t8 = f8 + rest;
    let t7 = f7 + t8;
    let t6 = f6 + t7;
    let t5 = f5 + t6;
    let t4 = f4 + t5;
    let t3 = f3 + t4;
    let t2 = f2 + t3;
    lemma_assoc(f1 + f2 + f3 + f4 + f5 + f6 + f7, f8, rest);
    lemma_assoc(f1 + f2 + f3 + f4 + f5 + f6, f7, t8);
    lemma_assoc(f1 + f2 + f3 + f4 + f5, f6, t7);
    lemma_assoc(f1 + f2 + f3 + f4, f5, t6);
    lemma_assoc(f1 + f2 + f3, f4, t5);
    lemma_assoc(f1 + f2, f3, t4);
    lemma_assoc(f1, f2, t3);
    lemma_parse_str_field("company"@, x.company, t2);
    lemma_parse_str_field("position"@, x.position, t3);
    lemma_parse_str_field("start_date"@, x.start_date, t4);
    lemma_parse_str_field("end_date"@, x.end_date, t5);
    lemma_parse_str_field("location"@, x.location, t6);
    lemma_parse_str_field("description"@, x.description, t7);
    lemma_parse_string_list("achievements"@, x.achievements, t8);
    lemma_parse_bool_field("is_current"@, x.is_current, rest);
}

/// The year of an optional date, with 0 standing in for absence.
pub open spec fn spec_date_year(od: Option<Date>) -> nat {
    match od {
        Some(d) => d.year as nat,
        None => 0,
    }
}

/// The month of an optional date, with 0 standing in for absence.
pub open spec fn spec_date_month(od: Option<Date>) -> nat {
    match od {
        Some(d) => d.month as nat,
        None => 0,
    }
}

/// The day of an optional date, with 0 standing in for absence.
pub open spec fn spec_date_day(od: Option<Date>) -> nat {
    match od {
        Some(d) => d.day as nat,
        None => 0,
    }
}

/// An optional date: a presence flag and three number fields; the numbers of
/// an absent date are written as zero and ignored when read back.
pub open spec fn spec_render_opt_date(
    fname: Seq<char>,
    yname: Seq<char>,
    mname: Seq<char>,
    dname: Seq<char>,
    od: Option<Date>,
) -> Seq<char> {
    spec_render_bool_field(fname, od is Some) + spec_render_num_field(yname, spec_date_year(od))
        + spec_render_num_field(mname, spec_date_month(od)) + spec_render_num_field(
        dname,
        spec_date_day(od),
    )
}

/// Parses an optional date.
pub open spec fn spec_parse_opt_date(
    s: Seq<char>,
    fname: Seq<char>,
    yname: Seq<char>,
    mname: Seq<char>,
    dname: Seq<char>,
) -> Option<(Option<Date>, Seq<char>)> {
    match spec_parse_bool_field(s, fname) {
        None => None,
        Some((b, s1)) => match spec_parse_num_field(s1, yname) {
            None => None,
            Some((y, s2)) => if y <= u32::MAX {
                match spec_parse_num_field(s2, mname) {
                    None => None,
                    Some((m, s3)) => if m <= u8::MAX {
                        match spec_parse_num_field(s3, dname) {
                            None => None,
                            Some((d, s4)) => if d <= u8::MAX {
                                Some(
                                    (
                                        if b {
                                            Some(
                                                Date {
                                                    year: y as u32,
                                                    month: m as u8,
                                                    day: d as u8,
                                                },
                                            )
                                        } else {
                                            None
                                        },
                                        s4,
                                    ),
                                )
                            } else {
                                None
                            },
                        }
                    } else {
                        None
                    },
                }
            } else {
                None
            },
        },
    }
}

/// Round trip for optional dates.
pub proof fn lemma_parse_opt_date(
    fname: Seq<char>,
    yname: Seq<char>,
    mname: Seq<char>,
    dname: Seq<char>,
    od: Option<Date>,
    rest: Seq<char>,
)
    ensures
        spec_parse_opt_date(
            spec_render_opt_date(fname, yname, mname, dname, od) + rest,
            fname,
            yname,
            mname,
            dname,
        ) == Some((od, rest)),
{
    let f1 = spec_render_bool_field(fname, od is Some);
    let f2 = spec_render_num_field(yname, spec_date_year(od));
    let f3 = spec_render_num_field(mname, spec_date_month(od));
    let f4 = spec_render_num_field(dname, spec_date_day(od));
    let t4 = f4 + rest;
    let t3 = f3 + t4;
    let t2 = f2 + t3;
    lemma_assoc(f1 + f2 + f3, f4, rest);
    lemma_assoc(f1 + f2, f3, t4);
    lemma_assoc(f1, f2, t3);
    lemma_parse_bool_field(fname, od is Some, t2);
    lemma_parse_num_field(yname, spec_date_year(od), t3);
    lemma_parse_num_field(mname, spec_date_month(od), t4);
    lemma_parse_num_field(dname, spec_date_day(od), rest);
}

/// Whether a project record fits in memory.
pub open spec fn fits_project(p: ProjectView) -> bool {
    fits_str(p.name) && fits_str(p.description) && fits_string_list(p.technologies) && fits_str(
        p.url,
    ) && fits_string_list(p.achievements)
}

/// A project record as text.
pub open spec fn spec_render_project(p: ProjectView) -> Seq<char> {
    spec_render_str_field("name"@, p.name) + spec_render_str_field("description"@, p.description)
        + spec_render_opt_date(
        "has_start_date"@,
        "start_year"@,
        "start_month"@,
        "start_day"@,
        p.start_date,
    ) + spec_render_opt_date(
        "has_end_date"@,
        "end_year"@,
        "end_month"@,
        "end_day"@,
        p.end_date,
    ) + spec_render_string_list("technologies"@, p.technologies) + spec_render_str_field(
        "url"@,
        p.url,
    ) + spec_render_string_list("achievements"@, p.achievements)
}

/// Parses a project record.
pub open spec fn spec_parse_project(s: Seq<char>) -> Option<(ProjectView, Seq<char>)> {
    match spec_parse_str_field(s, "name"@) {
        None => None,
        Some((name, s1)) => match spec_parse_str_field(s1, "description"@) {
            None => None,
            Some((description, s2)) => match spec_parse_opt_date(
                s2,
                "has_start_date"@,
                "start_year"@,
                "start_month"@,
                "start_day"@,
            ) {
                None => None,
                Some((start_date, s3)) => match spec_parse_opt_date(
                    s3,
                    "has_end_date"@,
                    "end_year"@,
                    "end_month"@,
                    "end_day"@,
                ) {
                    None => None,
                    Some((end_date, s4)) => match spec_parse_string_list(s4, "technologies"@) {
                        None => None,
                        Some((technologies, s5)) => match spec_parse_str_field(s5, "url"@) {
                            None => None,
                            Some((url, s6)) => match spec_parse_string_list(
                                s6,
                                "achievements"@,
                            ) {
                                None => None,
                                Some((achievements, s7)) => Some(
                                    (
                                        ProjectView {
                                            name,
                                            description,
                                            start_date,
                                            end_date,
                                            technologies,
                                            url,
                                            achievements,
                                        },
                                        s7,
                                    ),
                                ),
                            },
                        },
                    },
                },
            },
        },
    }
}

/// Round trip for project records.
pub proof fn lemma_parse_project(p: ProjectView, rest: Seq<char>)
    requires
        fits_project(p),
    ensures
        spec_parse_project(spec_render_project(p) + rest) == Some((p, rest)),
{
    let f1 = spec_render_str_field("name"@, p.name);
    let f2 = spec_render_str_field("description"@, p.description);
    let f3 = spec_render_opt_date(
        "has_start_date"@,
        "start_year"@,
        "start_month"@,
        "start_day"@,
        p.start_date,
    );
    let f4 = spec_render_opt_date(
        "has_end_date"@,
        "end_year"@,
        "end_month"@,
        "end_day"@,
        p.end_date,
    );
    let f5 = spec_render_string_list("technologies"@, p.technologies);
    let f6 = spec_render_str_field("url"@, p.url);
    let f7 = spec_render_string_list("achievements"@, p.achievements);
    let t7 = f7 + rest;
    let t6 = f6 + t7;
    let t5 = f5 + t6;
    let t4 = f4 + t5;
    let t3 = f3 + t4;
    let t2 = f2 + t3;
    lemma_assoc(f1 + f2 + f3 + f4 + f5 + f6, f7, rest);
    lemma_assoc(f1 + f2 + f3 + f4 + f5, f6, t7);
    lemma_assoc(f1 + f2 + f3 + f4, f5, t6);
    lemma_assoc(f1 + f2 + f3, f4, t5);
    lemma_assoc(f1 + f2, f3, t4);
    lemma_assoc(f1, f2, t3);
    lemma_parse_str_field("name"@, p.name, t2);
    lemma_parse_str_field("description"@, p.description, t3);
    lemma_parse_opt_date(
        "has_start_date"@,
        "start_year"@,
        "start_month"@,
        "start_day"@,
        p.start_date,
        t4,
    );
    lemma_parse_opt_date(
        "has_end_date"@,
        "end_year"@,
        "end_month"@,
        "end_day"@,
        p.end_date,
        t5,
    );
    lemma_parse_string_list("technologies"@, p.technologies, t6);
    lemma_parse_str_field("url"@, p.url, t7);
    lemma_parse_string_list("achievements"@, p.achievements, rest);
}

// ---------------------------------------------------------------------------
// Lists of records
// ---------------------------------------------------------------------------

/// The entries of the education section, one record after another.
pub open spec fn spec_render_education_items(items: Seq<EducationView>) -> Seq<char>
    decreases items.len(),
{
    if items.len() == 0 {
        Seq::empty()
    } else {
        spec_render_education(items[0]) + spec_render_education_items(items.drop_first())
    }
}

/// Parses exactly `n` education records.
pub open spec fn spec_parse_education_items(s: Seq<char>, n: nat) -> Option<
    (Seq<EducationView>, Seq<char>),
>
    decreases n,
{
    if n == 0 {
        Some((Seq::empty(), s))
    } else {
        match spec_parse_education(s) {
            None => None,
            Some((x, s1)) => match spec_parse_education_items(s1, (n - 1) as nat) {
                None => None,
                Some((xs, s2)) => Some((seq![x] + xs, s2)),
            },
        }
    }
}

/// Round trip for the education section's entries.
pub proof fn lemma_parse_education_items(items: Seq<EducationView>, rest: Seq<char>)
    requires
        forall|i: int| 0 <= i < items.len() ==> fits_education(#[trigger] items[i]),
    ensures
        spec_parse_education_items(spec_render_education_items(items) + rest, items.len())
            == Some((items, rest)),
    decreases items.len(),
{
    if items.len() == 0 {
        assert(spec_render_education_items(items) + rest =~= rest);
        assert(items =~= Seq::<EducationView>::empty());
    } else {
        let hd = items[0];
        let tl = items.drop_first();
        lemma_assoc(spec_render_education(hd), spec_render_education_items(tl), rest);
        lemma_parse_education(hd, spec_render_education_items(tl) + rest);
        assert(forall|i: int| 0 <= i < tl.len() ==> fits_education(#[trigger] tl[i])) by {
            assert(forall|i: int| 0 <= i < tl.len() ==> tl[i] == items[i + 1]);
        }
        lemma_parse_education_items(tl, rest);
        assert(seq![hd] + tl =~= items);
    }
}

/// The entries of the experience section, one record after another.
pub open spec fn spec_render_experience_items(items: Seq<ExperienceView>) -> Seq<char>
    decreases items.len(),
{
    if items.len() == 0 {
        Seq::empty()
    } else {
        spec_render_experience(items[0]) + spec_render_experience_items(items.drop_first())
    }
}

/// Parses exactly `n` work-experience records.
pub open spec fn spec_parse_experience_items(s: Seq<char>, n: nat) -> Option<
    (Seq<ExperienceView>, Seq<char>),
>
    decreases n,
{
    if n == 0 {
        Some((Seq::empty(), s))
    } else {
        match spec_parse_experience(s) {
            None => None,
            Some((x, s1)) => match spec_parse_experience_items(s1, (n - 1) as nat) {
                None => None,
                Some((xs, s2)) => Some((seq![x] + xs, s2)),
            },
        }
    }
}

/// Round trip for the experience section's entries.
#[verifier::rlimit(60)]
pub proof fn lemma_parse_experience_items(items: Seq<ExperienceView>, rest: Seq<char>)
    requires
        forall|i: int| 0 <= i < items.len() ==> fits_experience(#[trigger] items[i]),
    ensures
        spec_parse_experience_items(spec_render_experience_items(items) + rest, items.len())
            == Some((items, rest)),
    decreases items.len(),
{
    if items.len() == 0 {
        assert(spec_render_experience_items(items) + rest =~= rest);
        assert(items =~= Seq::<ExperienceView>::empty());
    } else {
        let hd = items[0];
        let tl = items.drop_first();
        lemma_assoc(spec_render_experience(hd), spec_render_experience_items(tl), rest);
        lemma_parse_experience(hd, spec_render_experience_items(tl) + rest);
        assert(forall|i: int| 0 <= i < tl.len() ==> fits_experience(#[trigger] tl[i])) by {
            assert(forall|i: int| 0 <= i < tl.len() ==> tl[i] == items[i + 1]);
        }
        lemma_parse_experience_items(tl, rest);
        assert(seq![hd] + tl =~= items);
    }
}

/// The entries of the skills section, one record after another.
pub open spec fn spec_render_skill_items(items: Seq<SkillView>) -> Seq<char>
    decreases items.len(),
{
    if items.len() == 0 {
        Seq::empty()
    } else {
        spec_render_skill(items[0]) + spec_render_skill_items(items.drop_first())
    }
}

/// Parses exactly `n` skill records.
pub open spec fn spec_parse_skill_items(s: Seq<char>, n: nat) -> Option<
    (Seq<SkillView>, Seq<char>),
>
    decreases n,
{
    if n == 0 {
        Some((Seq::empty(), s))
    } else {
        match spec_parse_skill(s) {
            None => None,
            Some((x, s1)) => match spec_parse_skill_items(s1, (n - 1) as nat) {
                None => None,
                Some((xs, s2)) => Some((seq![x] + xs, s2)),
            },
        }
    }
}

/// Round trip for the skills section's entries.
pub proof fn lemma_parse_skill_items(items: Seq<SkillView>, rest: Seq<char>)
    requires
        forall|i: int| 0 <= i < items.len() ==> fits_skill(#[trigger] items[i]),
    ensures
        spec_parse_skill_items(spec_render_skill_items(items) + rest, items.len()) == Some(
            (items, rest),
        ),
    decreases items.len(),
{
    if items.len() == 0 {
        assert(spec_render_skill_items(items) + rest =~= rest);
        assert(items =~= Seq::<SkillView>::empty());
    } else {
        let hd = items[0];
        let tl = items.drop_first();
        lemma_assoc(spec_render_skill(hd), spec_render_skill_items(tl), rest);
        lemma_parse_skill(hd, spec_render_skill_items(tl) + rest);
        assert(forall|i: int| 0 <= i < tl.len() ==> fits_skill(#[trigger] tl[i])) by {
            assert(forall|i: int| 0 <= i < tl.len() ==> tl[i] == items[i + 1]);
        }
        lemma_parse_skill_items(tl, rest);
        assert(seq![hd] + tl =~= items);
    }
}

/// The entries of the projects section, one record after another.
pub open spec fn spec_render_project_items(items: Seq<ProjectView>) -> Seq<char>
    decreases items.len(),
{
    if items.len() == 0 {
        Seq::empty()
    } else {
        spec_render_project(items[0]) + spec_render_project_items(items.drop_first())
    }
}

/// Parses exactly `n` project records.
pub open spec fn spec_parse_project_items(s: Seq<char>, n: nat) -> Option<
    (Seq<ProjectView>, Seq<char>),
>
    decreases n,
{
    if n == 0 {
        Some((Seq::empty(), s))
    } else {
        match spec_parse_project(s) {
            None => None,
            Some((x, s1)) => match spec_parse_project_items(s1, (n - 1) as nat) {
                None => None,
                Some((xs, s2)) => Some((seq![x] + xs, s2)),
            },
        }
    }
}

/// Round trip for the projects section's entries.
pub proof fn lemma_parse_project_items(items: Seq<ProjectView>, rest: Seq<char>)
    requires
        forall|i: int| 0 <= i < items.len() ==> fits_project(#[trigger] items[i]),
    ensures
        spec_parse_project_items(spec_render_project_items(items) + rest, items.len()) == Some(
            (items, rest),
        ),
    decreases items.len(),
{
    if items.len() == 0 {
        assert(spec_render_project_items(items) + rest =~= rest);
        assert(items =~= Seq::<ProjectView>::empty());
    } else {
        let hd = items[0];
        let tl = items.drop_first();
        lemma_assoc(spec_render_project(hd), spec_render_project_items(tl), rest);
        lemma_parse_project(hd, spec_render_project_items(tl) + rest);
        assert(forall|i: int| 0 <= i < tl.len() ==> fits_project(#[trigger] tl[i])) by {
            assert(forall|i: int| 0 <= i < tl.len() ==> tl[i] == items[i + 1]);
        }
        lemma_parse_project_items(tl, rest);
        assert(seq![hd] + tl =~= items);
    }
}

// ---------------------------------------------------------------------------
// The whole document
// ---------------------------------------------------------------------------

/// The number a theme is written as.
pub open spec fn theme_code(t: ResumeTheme) -> nat {
    match t {
        ResumeTheme::Professional => 0,
        ResumeTheme::Minimal => 1,
        ResumeTheme::Creative => 2,
        ResumeTheme::Modern => 3,
    }
}

/// The theme a number is read back as.
pub open spec fn theme_from_code(n: nat) -> Option<ResumeTheme> {
    if n == 0 {
        Some(ResumeTheme::Professional)
    } else if n == 1 {
        Some(ResumeTheme::Minimal)
    } else if n == 2 {
        Some(ResumeTheme::Creative)
    } else if n == 3 {
        Some(ResumeTheme::Modern)
    } else {
        None
    }
}

/// Whether a whole document fits in memory: every string and every list is
/// short enough for one in-memory value.  Every document held in an
/// executable `Resume` satisfies this.
pub open spec fn fits_resume(v: ResumeView) -> bool {
    fits_personal_info(v.personal_info) && v.education.len() <= usize::MAX && (forall|i: int|
        0 <= i < v.education.len() ==> fits_education(#[trigger] v.education[i]))
        && v.experience.len() <= usize::MAX && (forall|i: int|
        0 <= i < v.experience.len() ==> fits_experience(#[trigger] v.experience[i]))
        && v.skills.skill_list.len() <= usize::MAX && (forall|i: int|
        0 <= i < v.skills.skill_list.len() ==> fits_skill(#[trigger] v.skills.skill_list[i]))
        && v.projects.len() <= usize::MAX && (forall|i: int|
        0 <= i < v.projects.len() ==> fits_project(#[trigger] v.projects[i]))
}

/// A whole document as text: the personal-information record, the three list
/// sections and the skills, each with a count field, and the theme.
pub open spec fn spec_render_resume(v: ResumeView) -> Seq<char> {
    spec_render_personal_info(v.personal_info) + spec_render_num_field(
        "education"@,
        v.education.len() as nat,
    ) + spec_render_education_items(v.education) + spec_render_num_field(
        "experience"@,
        v.experience.len() as nat,
    ) + spec_render_experience_items(v.experience) + spec_render_num_field(
        "skills"@,
        v.skills.skill_list.len() as nat,
    ) + spec_render_skill_items(v.skills.skill_list) + spec_render_num_field(
        "projects"@,
        v.projects.len() as nat,
    ) + spec_render_project_items(v.projects) + spec_render_num_field(
        "theme"@,
        theme_code(v.theme),
    )
}

/// Parses a whole document from the front of `s`.
pub open spec fn spec_parse_resume(s: Seq<char>) -> Option<(ResumeView, Seq<char>)> {
    match spec_parse_personal_info(s) {
        None => None,
        Some((personal_info, s1)) => match spec_parse_num_field(s1, "education"@) {
            None => None,
            Some((n1, s2)) => match spec_parse_education_items(s2, n1) {
                None => None,
                Some((education, s3)) => match spec_parse_num_field(s3, "experience"@) {
                    None => None,
                    Some((n2, s4)) => match spec_parse_experience_items(s4, n2) {
                        None => None,
                        Some((experience, s5)) => match spec_parse_num_field(s5, "skills"@) {
                            None => None,
                            Some((n3, s6)) => match spec_parse_skill_items(s6, n3) {
                                None => None,
                                Some((skill_list, s7)) => match spec_parse_num_field(
                                    s7,
                                    "projects"@,
                                ) {
                                    None => None,
                                    Some((n4, s8)) => match spec_parse_project_items(s8, n4) {
                                        None => None,
                                        Some((projects, s9)) => match spec_parse_num_field(
                                            s9,
                                            "theme"@,
                                        ) {
                                            None => None,
                                            Some((c, s10)) => match theme_from_code(c) {
                                                None => None,
                                                Some(theme) => Some(
                                                    (
                                                        ResumeView {
                                                            personal_info,
                                                            education,
                                                            experience,
                                                            skills: SkillsView { skill_list },
                                                            projects,
                                                            theme,
                                                        },
                                                        s10,
                                                    ),
                                                ),
                                            },
                                        },
                                    },
                                },
                            },
                        },
                    },
                },
            },
        },
    }
}

/// Parses a whole snapshot: a document followed by nothing else.
pub open spec fn spec_parse_document(s: Seq<char>) -> Option<ResumeView> {
    match spec_parse_resume(s) {
        None => None,
        Some((v, rest)) => if rest.len() == 0 {
            Some(v)
        } else {
            None
        },
    }
}

/// Round trip for whole documents followed by arbitrary text.
pub proof fn lemma_parse_resume(v: ResumeView, rest: Seq<char>)
    requires
        fits_resume(v),
    ensures
        spec_parse_resume(spec_render_resume(v) + rest) == Some((v, rest)),
{
    let f1 = spec_render_personal_info(v.personal_info);
    let f2 = spec_render_num_field("education"@, v.education.len() as nat);
    let f3 = spec_render_education_items(v.education);
    let f4 = spec_render_num_field("experience"@, v.experience.len() as nat);
    let f5 = spec_render_experience_items(v.experience);
    let f6 = spec_render_num_field("skills"@, v.skills.skill_list.len() as nat);
    let f7 = spec_render_skill_items(v.skills.skill_list);
    let f8 = spec_render_num_field("projects"@, v.projects.len() as nat);
    let f9 = spec_render_project_items(v.projects);
    let f10 = spec_render_num_field("theme"@, theme_code(v.theme));
    let t10 = f10 + rest;
    let t9 = f9 + t10;
    let t8 = f8 + t9;
    let t7 = f7 + t8;
    let t6 = f6 + t7;
    let t5 = f5 + t6;
    let t4 = f4 + t5;
    let t3 = f3 + t4;
    let t2 = f2 + t3;
    lemma_assoc(f1 + f2 + f3 + f4 + f5 + f6 + f7 + f8 + f9, f10, rest);
    lemma_assoc(f1 + f2 + f3 + f4 + f5 + f6 + f7 + f8, f9, t10);
    lemma_assoc(f1 + f2 + f3 + f4 + f5 + f6 + f7, f8, t9);
    lemma_assoc(f1 + f2 + f3 + f4 + f5 + f6, f7, t8);
    lemma_assoc(f1 + f2 + f3 + f4 + f5, f6, t7);
    lemma_assoc(f1 + f2 + f3 + f4, f5, t6);
    lemma_assoc(f1 + f2 + f3, f4, t5);
    lemma_assoc(f1 + f2, f3, t4);
    lemma_assoc(f1, f2, t3);
    lemma_parse_personal_info(v.personal_info, t2);
    lemma_parse_num_field("education"@, v.education.len() as nat, t3);
    lemma_parse_education_items(v.education, t4);
    lemma_parse_num_field("experience"@, v.experience.len() as nat, t5);
    lemma_parse_experience_items(v.experience, t6);
    lemma_parse_num_field("skills"@, v.skills.skill_list.len() as nat, t7);
    lemma_parse_skill_items(v.skills.skill_list, t8);
    lemma_parse_num_field("projects"@, v.projects.len() as nat, t9);
    lemma_parse_project_items(v.projects, t10);
    lemma_parse_num_field("theme"@, theme_code(v.theme), rest);
    assert(theme_from_code(theme_code(v.theme)) == Some(v.theme));
    assert(SkillsView { skill_list: v.skills.skill_list } == v.skills);
}

/// The round-trip law: parsing the rendered text of any document that fits
/// in memory yields exactly that document.
pub proof fn lemma_document_round_trip(v: ResumeView)
    requires
        fits_resume(v),
    ensures
        spec_parse_document(spec_render_resume(v)) == Some(v),
{
    lemma_parse_resume(v, Seq::empty());
    assert(spec_render_resume(v) + Seq::<char>::empty() =~= spec_render_resume(v));
}

} // verus!
