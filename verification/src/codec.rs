//! The document of a submission: how a submission is written as JSON and
//! read back from it.
//!
//! A document is an object with the members `notes`, `rims_scheme`,
//! `references`, `submitted_by` and `saturation_curves`.  The scheme stands
//! under `rims_scheme.scheme`; an older layout, which is read but never
//! written, has it directly under `scheme`.

use vstd::prelude::*;
use crate::elements::{element_of_symbol, Elements};
use crate::json::{
    items_view, lemma_array_view, lemma_items_view_push, lemma_members_view_push,
    lemma_object_view, members_view, parse_json, parsed_json, print_json, printable,
    printable_json, printed_json, Json, JsonView, Member,
};
use crate::model::{
    checked_ground_level, checked_optional_number, GroundState, GroundStateView, Lasers,
    ReferenceEntry, ReferenceEntryView, SaturationCurve, SaturationCurveUnit,
    SaturationCurveView, Submission, SubmissionView, Transition, TransitionUnit, TransitionView,
};
use crate::number::{
    decimal_text, digit_char, digit_of, is_float_text, is_number, json_number, json_number_of,
    unsigned_text,
};
use crate::text::{join2, text_result, texts_view};

verus! {

/// How a unit of the levels is written in a document.
pub open spec fn unit_name(u: TransitionUnit) -> Seq<char> {
    match u {
        TransitionUnit::NM => "nm"@,
        TransitionUnit::CM1 => "cm<sup>-1</sup>"@,
    }
}

/// How a unit of a saturation curve is written in a document.
pub open spec fn curve_unit_name(u: SaturationCurveUnit) -> Seq<char> {
    match u {
        SaturationCurveUnit::WCM2 => "W * cm^-2"@,
        SaturationCurveUnit::W => "W"@,
    }
}

/// The key of a field of step `i`: the name of the field and the digit `i`.
pub open spec fn step_key(name: Seq<char>, i: int) -> Seq<char> {
    name.push(digit_char(i))
}

/// The five members that step `i` adds to the scheme.
pub open spec fn step_members(t: TransitionView, i: int) -> Seq<(Seq<char>, JsonView)> {
    seq![
        (step_key("step_level"@, i), JsonView::Str(t.level)),
        (step_key("step_term"@, i), JsonView::Str(t.term_symbol)),
        (step_key("trans_strength"@, i), JsonView::Str(t.transition_strength)),
        (step_key("step_forbidden"@, i), JsonView::Bool(t.forbidden)),
        (step_key("step_lowlying"@, i), JsonView::Bool(t.low_lying)),
    ]
}

/// The members that the first `n` steps add to the scheme.  A step with an
/// empty level is not used and adds nothing.
pub open spec fn steps_members(ts: Seq<TransitionView>, n: int) -> Seq<(Seq<char>, JsonView)>
    decreases n,
{
    if n <= 0 {
        Seq::empty()
    } else if ts[n - 1].level.len() > 0 {
        steps_members(ts, n - 1) + step_members(ts[n - 1], n - 1)
    } else {
        steps_members(ts, n - 1)
    }
}

/// What is wrong with a step, if anything: its level is no number, or the
/// step is used and its strength is neither empty nor a number.
pub open spec fn step_error(t: TransitionView) -> Option<Seq<char>> {
    if checked_optional_number(t.level, "Transition level is not a number."@) is Err {
        Some("Transition level is not a number."@)
    } else if t.level.len() > 0 && checked_optional_number(
        t.transition_strength,
        "Transition strength is not a number."@,
    ) is Err {
        Some("Transition strength is not a number."@)
    } else {
        None
    }
}

/// What is wrong with the first of the first `n` steps that has something
/// wrong.
pub open spec fn steps_error(ts: Seq<TransitionView>, n: int) -> Option<Seq<char>>
    decreases n,
{
    if n <= 0 {
        None
    } else if steps_error(ts, n - 1) is Some {
        steps_error(ts, n - 1)
    } else {
        step_error(ts[n - 1])
    }
}

/// The members of the scheme object.
pub open spec fn scheme_members(m: SubmissionView) -> Seq<(Seq<char>, JsonView)> {
    seq![
        ("element"@, JsonView::Str(m.scheme_element.symbol_spec())),
        ("lasers"@, JsonView::Str(m.scheme_lasers.name_spec())),
        ("last_step_to_ip"@, JsonView::Bool(m.scheme_last_step_to_ip)),
        ("gs_term"@, JsonView::Str(m.scheme_gs.term_symbol)),
        ("gs_level"@, JsonView::Str(m.scheme_gs.level)),
        ("ip_term"@, JsonView::Str(m.scheme_ip_term_symbol)),
        ("unit"@, JsonView::Str(unit_name(m.scheme_unit))),
    ] + steps_members(m.scheme_transitions, 7)
}

/// The object that a reference is written as.
pub open spec fn reference_json(r: ReferenceEntryView) -> JsonView {
    JsonView::Object(
        seq![
            ("id"@, JsonView::Str(r.id)),
            ("authors"@, JsonView::Str(r.authors)),
            ("year"@, JsonView::Number(decimal_text(r.year as nat))),
        ],
    )
}

/// What a number of a saturation curve is written as: its JSON literal, or
/// `null` for an infinity or a NaN.
pub open spec fn number_json(t: Seq<char>) -> JsonView {
    match json_number_of(t) {
        Some(literal) => JsonView::Number(literal),
        None => JsonView::Null,
    }
}

/// The array that a list of numbers is written as.
pub open spec fn numbers_json(v: Seq<Seq<char>>) -> JsonView {
    JsonView::Array(Seq::new(v.len(), |i: int| number_json(v[i])))
}

/// The members of the `data` object of a saturation curve: `x` and `y`, and
/// `x_err` and `y_err` where the curve has these uncertainties.
pub open spec fn data_members(c: SaturationCurveView) -> Seq<(Seq<char>, JsonView)> {
    seq![("x"@, numbers_json(c.xdat)), ("y"@, numbers_json(c.ydat))] + (match c.xdat_unc {
        Some(u) => seq![("x_err"@, numbers_json(u))],
        None => Seq::empty(),
    }) + (match c.ydat_unc {
        Some(u) => seq![("y_err"@, numbers_json(u))],
        None => Seq::empty(),
    })
}

/// The object that a saturation curve is written as.
pub open spec fn curve_json(c: SaturationCurveView) -> JsonView {
    JsonView::Object(
        seq![
            ("title"@, JsonView::Str(c.title)),
            ("notes"@, JsonView::Str(c.notes)),
            ("unit"@, JsonView::Str(curve_unit_name(c.units))),
            ("fit"@, JsonView::Bool(c.fit)),
            ("data"@, JsonView::Object(data_members(c))),
        ],
    )
}

/// What keeps a submission from being written, if anything.  The checks are
/// made in this order: the first step has a level; the name of the submitter
/// is given; the level of the ground state is a number; each step is sound.
pub open spec fn document_error(m: SubmissionView) -> Option<Seq<char>> {
    if m.scheme_transitions[0].level.len() == 0 {
        Some("No transitions entered: Please add at least one step."@)
    } else if m.submitted_by.len() == 0 {
        Some("Please enter your name."@)
    } else if checked_ground_level(m.scheme_gs.level) is Err {
        Some(checked_ground_level(m.scheme_gs.level)->Err_0)
    } else {
        steps_error(m.scheme_transitions, 7)
    }
}

/// The document that a submission is written as, where nothing keeps it from
/// being written.
pub open spec fn document_tree(m: SubmissionView) -> JsonView {
    JsonView::Object(
        seq![
            ("notes"@, JsonView::Str(m.notes)),
            (
                "rims_scheme"@,
                JsonView::Object(seq![("scheme"@, JsonView::Object(scheme_members(m)))]),
            ),
            (
                "references"@,
                JsonView::Array(
                    Seq::new(m.references.len(), |i: int| reference_json(m.references[i])),
                ),
            ),
            ("submitted_by"@, JsonView::Str(m.submitted_by)),
            (
                "saturation_curves"@,
                JsonView::Array(
                    Seq::new(
                        m.saturation_curves.len(),
                        |i: int| curve_json(m.saturation_curves[i]),
                    ),
                ),
            ),
        ],
    )
}

/// The document of a submission, or the message that says why it has none.
pub open spec fn document_of(m: SubmissionView) -> Result<JsonView, Seq<char>> {
    match document_error(m) {
        Some(e) => Err(e),
        None => Ok(document_tree(m)),
    }
}

/// The view of a document or an error message.
pub open spec fn json_result(r: Result<Json, String>) -> Result<JsonView, Seq<char>> {
    match r {
        Ok(j) => Ok(j@),
        Err(e) => Err(e@),
    }
}

fn text_json(s: &str) -> (r: Json)
    ensures
        r@ == JsonView::Str(s@),
{
    Json::Str(s.to_owned())
}

fn member(key: &str, value: Json) -> (r: Member)
    ensures
        r.key@ == key@,
        r.value == value,
{
    Member { key: key.to_owned(), value }
}

fn object_json(members: Vec<Member>) -> (r: Json)
    ensures
        r@ == JsonView::Object(members_view(members@)),
{
    proof {
        lemma_object_view(members);
    }
    Json::Object(members)
}

fn array_json(items: Vec<Json>) -> (r: Json)
    ensures
        r@ == JsonView::Array(items_view(items@)),
{
    proof {
        lemma_array_view(items);
    }
    Json::Array(items)
}

fn add_member(members: &mut Vec<Member>, key: &str, value: Json)
    ensures
        members_view(final(members)@) == members_view(old(members)@).push((key@, value@)),
{
    let ghost before = members@;
    let e = member(key, value);
    members.push(e);
    proof {
        lemma_members_view_push(before, e);
    }
}

fn step_key_text(name: &str, i: usize) -> (r: String)
    requires
        i < 10,
    ensures
        r@ == step_key(name@, i as int),
{
    let mut key = name.to_owned();
    key.push(digit_of(i as u8));
    key
}

fn numbers_to_json(v: &Vec<String>) -> (r: Json)
    ensures
        r@ == numbers_json(texts_view(v@)),
{
    let mut items: Vec<Json> = Vec::new();
    let mut i: usize = 0;
    let ghost want = numbers_json(texts_view(v@))->Array_0;
    assert(items_view(items@) =~= want.take(0));
    while i < v.len()
        invariant
            i <= v.len(),
            want == numbers_json(texts_view(v@))->Array_0,
            items_view(items@) == want.take(i as int),
        decreases v.len() - i,
    {
        let item = match json_number(v[i].as_str()) {
            Some(literal) => Json::Number(literal),
            None => Json::Null,
        };
        let ghost before = items@;
        proof {
            lemma_items_view_push(before, item);
            assert(item@ == number_json(v@[i as int]@));
            assert(want.take(i + 1) =~= want.take(i as int).push(want[i as int]));
        }
        items.push(item);
        i += 1;
    }
    assert(want.take(i as int) =~= want);
    array_json(items)
}

fn reference_to_json(r: &ReferenceEntry) -> (j: Json)
    ensures
        j@ == reference_json(r@),
{
    let mut members: Vec<Member> = Vec::new();
    assert(members_view(members@) =~= Seq::empty());
    add_member(&mut members, "id", text_json(r.id.as_str()));
    add_member(&mut members, "authors", text_json(r.authors.as_str()));
    add_member(&mut members, "year", Json::Number(unsigned_text(r.year as u64)));
    assert(members_view(members@) =~= reference_json(r@)->Object_0);
    object_json(members)
}

fn curve_to_json(c: &SaturationCurve) -> (j: Json)
    ensures
        j@ == curve_json(c@),
{
    let mut data: Vec<Member> = Vec::new();
    assert(members_view(data@) =~= Seq::empty());
    add_member(&mut data, "x", numbers_to_json(&c.xdat));
    add_member(&mut data, "y", numbers_to_json(&c.ydat));
    match &c.xdat_unc {
        Some(u) => {
            add_member(&mut data, "x_err", numbers_to_json(u));
        },
        None => {},
    }
    match &c.ydat_unc {
        Some(u) => {
            add_member(&mut data, "y_err", numbers_to_json(u));
        },
        None => {},
    }
    assert(members_view(data@) =~= data_members(c@));
    let unit = match c.units {
        SaturationCurveUnit::WCM2 => "W * cm^-2",
        SaturationCurveUnit::W => "W",
    };
    let mut members: Vec<Member> = Vec::new();
    assert(members_view(members@) =~= Seq::empty());
    add_member(&mut members, "title", text_json(c.title.as_str()));
    add_member(&mut members, "notes", text_json(c.notes.as_str()));
    add_member(&mut members, "unit", text_json(unit));
    add_member(&mut members, "fit", Json::Bool(c.fit));
    add_member(&mut members, "data", object_json(data));
    assert(members_view(members@) =~= curve_json(c@)->Object_0);
    object_json(members)
}

fn check_step(t: &Transition) -> (r: Result<(), String>)
    ensures
        match r {
            Ok(_) => step_error(t@).is_none(),
            Err(e) => step_error(t@) == Some(e@),
        },
{
    let level = match t.get_level() {
        Ok(level) => level,
        Err(e) => { return Err(e); },
    };
    if !level.as_str().is_empty() {
        match t.get_transition_strength() {
            Ok(_) => {},
            Err(e) => { return Err(e); },
        }
    }
    Ok(())
}

fn add_step_members(members: &mut Vec<Member>, t: &Transition, i: usize)
    requires
        i < 7,
    ensures
        members_view(final(members)@) == members_view(old(members)@) + step_members(t@, i as int),
{
    add_member(members, step_key_text("step_level", i).as_str(), text_json(t.level.as_str()));
    add_member(members, step_key_text("step_term", i).as_str(), text_json(t.term_symbol.as_str()));
    add_member(
        members,
        step_key_text("trans_strength", i).as_str(),
        text_json(t.transition_strength.as_str()),
    );
    add_member(members, step_key_text("step_forbidden", i).as_str(), Json::Bool(t.forbidden));
    add_member(members, step_key_text("step_lowlying", i).as_str(), Json::Bool(t.low_lying));
    assert(members_view(members@) =~= members_view(old(members)@) + step_members(t@, i as int));
}

fn scheme_to_json(m: &Submission) -> (r: Result<Json, String>)
    ensures
        match r {
            Ok(j) => steps_error(m@.scheme_transitions, 7).is_none() && j@ == JsonView::Object(
                scheme_members(m@),
            ),
            Err(e) => steps_error(m@.scheme_transitions, 7) == Some(e@),
        },
{
    let unit = match m.scheme_unit {
        TransitionUnit::NM => "nm",
        TransitionUnit::CM1 => "cm<sup>-1</sup>",
    };
    let mut members: Vec<Member> = Vec::new();
    assert(members_view(members@) =~= Seq::empty());
    add_member(&mut members, "element", text_json(m.scheme_element.symbol()));
    add_member(&mut members, "lasers", text_json(m.scheme_lasers.name()));
    add_member(&mut members, "last_step_to_ip", Json::Bool(m.scheme_last_step_to_ip));
    add_member(&mut members, "gs_term", text_json(m.scheme_gs.term_symbol.as_str()));
    add_member(&mut members, "gs_level", text_json(m.scheme_gs.level.as_str()));
    add_member(&mut members, "ip_term", text_json(m.scheme_ip_term_symbol.as_str()));
    add_member(&mut members, "unit", text_json(unit));
    let ghost base = members_view(members@);
    let ghost ts = m@.scheme_transitions;
    assert(base + steps_members(ts, 0) =~= base);
    let mut i: usize = 0;
    while i < 7
        invariant
            i <= 7,
            ts == m@.scheme_transitions,
            base + steps_members(ts, 7) == scheme_members(m@),
            steps_error(ts, i as int).is_none(),
            members_view(members@) == base + steps_members(ts, i as int),
        decreases 7 - i,
    {
        let t = &m.scheme_transitions[i];
        assert(ts[i as int] == t@);
        match check_step(t) {
            Ok(_) => {},
            Err(e) => {
                proof {
                    lemma_steps_error_stays(ts, i + 1, 7);
                }
                return Err(e);
            },
        }
        if !t.level.as_str().is_empty() {
            add_step_members(&mut members, t, i);
            assert(base + steps_members(ts, i + 1) =~= (base + steps_members(ts, i as int))
                + step_members(t@, i as int));
        }
        i += 1;
    }
    Ok(object_json(members))
}

/// Once a step has something wrong, the first thing wrong stays the same
/// however many more steps are looked at.
pub proof fn lemma_steps_error_stays(ts: Seq<TransitionView>, n: int, m: int)
    requires
        0 <= n <= m,
        steps_error(ts, n) is Some,
    ensures
        steps_error(ts, m) == steps_error(ts, n),
    decreases m - n,
{
    if n < m {
        lemma_steps_error_stays(ts, n, m - 1);
    }
}

/// The document of a submission: everything that is handed in, as a JSON
/// tree.  A submission without a first step, without the name of the
/// submitter, or with a numeric field that holds no number has no document.
pub fn to_document(m: &Submission) -> (r: Result<Json, String>)
    ensures
        json_result(r) == document_of(m@),
{
    assert(m@.scheme_transitions[0] == m.scheme_transitions@[0]@);
    if m.scheme_transitions[0].level.as_str().is_empty() {
        return Err("No transitions entered: Please add at least one step.".to_owned());
    }
    if m.submitted_by.as_str().is_empty() {
        return Err("Please enter your name.".to_owned());
    }
    match m.scheme_gs.get_level() {
        Ok(_) => {},
        Err(e) => { return Err(e); },
    }
    let scheme = match scheme_to_json(m) {
        Ok(j) => j,
        Err(e) => { return Err(e); },
    };
    let mut wrapped: Vec<Member> = Vec::new();
    assert(members_view(wrapped@) =~= Seq::empty());
    add_member(&mut wrapped, "scheme", scheme);

    let ghost want_refs = Seq::new(
        m@.references.len(),
        |i: int| reference_json(m@.references[i]),
    );
    let mut refs: Vec<Json> = Vec::new();
    let mut i: usize = 0;
    assert(items_view(refs@) =~= want_refs.take(0));
    while i < m.references.len()
        invariant
            i <= m.references.len(),
            want_refs == Seq::new(m@.references.len(), |i: int| reference_json(m@.references[i])),
            items_view(refs@) == want_refs.take(i as int),
        decreases m.references.len() - i,
    {
        let item = reference_to_json(&m.references[i]);
        proof {
            lemma_items_view_push(refs@, item);
            assert(m@.references[i as int] == m.references@[i as int]@);
            assert(want_refs.take(i + 1) =~= want_refs.take(i as int).push(want_refs[i as int]));
        }
        refs.push(item);
        i += 1;
    }
    assert(want_refs.take(i as int) =~= want_refs);

    let ghost want_curves = Seq::new(
        m@.saturation_curves.len(),
        |i: int| curve_json(m@.saturation_curves[i]),
    );
    let mut curves: Vec<Json> = Vec::new();
    let mut k: usize = 0;
    assert(items_view(curves@) =~= want_curves.take(0));
    while k < m.saturation_curves.len()
        invariant
            k <= m.saturation_curves.len(),
            want_curves == Seq::new(
                m@.saturation_curves.len(),
                |i: int| curve_json(m@.saturation_curves[i]),
            ),
            items_view(curves@) == want_curves.take(k as int),
        decreases m.saturation_curves.len() - k,
    {
        let item = curve_to_json(&m.saturation_curves[k]);
        proof {
            lemma_items_view_push(curves@, item);
            assert(m@.saturation_curves[k as int] == m.saturation_curves@[k as int]@);
            assert(want_curves.take(k + 1) =~= want_curves.take(k as int).push(
                want_curves[k as int],
            ));
        }
        curves.push(item);
        k += 1;
    }
    assert(want_curves.take(k as int) =~= want_curves);

    let mut root: Vec<Member> = Vec::new();
    assert(members_view(root@) =~= Seq::empty());
    add_member(&mut root, "notes", text_json(m.notes.as_str()));
    add_member(&mut root, "rims_scheme", object_json(wrapped));
    add_member(&mut root, "references", array_json(refs));
    add_member(&mut root, "submitted_by", text_json(m.submitted_by.as_str()));
    add_member(&mut root, "saturation_curves", array_json(curves));
    assert(members_view(root@) =~= document_tree(m@)->Object_0);
    Ok(object_json(root))
}

/// What writing a submission gives: the text that is printed for its
/// document, with `null` for each number that `serde_json` does not read,
/// which is one beyond the range of 64-bit floats; the message that says why
/// the submission has no document; or, where printing fails, the message of
/// that failure behind `Error creating JSON output: `.
pub open spec fn json_output_of(m: SubmissionView) -> Result<Seq<char>, Seq<char>> {
    match document_of(m) {
        Err(e) => Err(e),
        Ok(doc) => match printed_json(printable(doc)) {
            Ok(t) => Ok(t),
            Err(e) => Err("Error creating JSON output: "@ + e),
        },
    }
}

/// Writes a submission as pretty-printed JSON text.
pub fn create_json_output(m: &Submission) -> (r: Result<String, String>)
    ensures
        text_result(r) == json_output_of(m@),
{
    let doc = match to_document(m) {
        Ok(doc) => doc,
        Err(e) => { return Err(e); },
    };
    match print_json(&printable_json(&doc)) {
        Ok(t) => Ok(t),
        Err(e) => Err(join2("Error creating JSON output: ", e.as_str())),
    }
}

/// The scheme object of a document: `rims_scheme.scheme` where `rims_scheme`
/// is an object, else `scheme` where that is an object.
pub open spec fn scheme_of(doc: JsonView) -> Option<JsonView> {
    if doc.field("rims_scheme"@) is Object {
        Some(doc.field("rims_scheme"@).field("scheme"@))
    } else if doc.field("scheme"@) is Object {
        Some(doc.field("scheme"@))
    } else {
        None
    }
}

/// The laser systems with the given name.
pub open spec fn lasers_of_name(name: Seq<char>) -> Option<Lasers> {
    if name == "Ti:Sa"@ {
        Some(Lasers::TiSa)
    } else if name == "Dye"@ {
        Some(Lasers::Dye)
    } else if name == "Ti:Sa and Dye"@ {
        Some(Lasers::Both)
    } else {
        None
    }
}

/// The unit that a document names: wavelength for `nm`, wavenumber for
/// anything else.
pub open spec fn unit_of_name(name: Seq<char>) -> TransitionUnit {
    if name == "nm"@ {
        TransitionUnit::NM
    } else {
        TransitionUnit::CM1
    }
}

/// Step `i` of a scheme object: unused where the scheme has no level for it,
/// else made of the fields that are there, each of the others empty or off.
pub open spec fn step_of(scheme: JsonView, i: int) -> TransitionView {
    if scheme.field(step_key("step_level"@, i)) is Null {
        crate::model::empty_transition()
    } else {
        TransitionView {
            level: scheme.field(step_key("step_level"@, i)).text_or(Seq::empty()),
            term_symbol: scheme.field(step_key("step_term"@, i)).text_or(Seq::empty()),
            transition_strength: scheme.field(step_key("trans_strength"@, i)).text_or(
                Seq::empty(),
            ),
            low_lying: scheme.field(step_key("step_lowlying"@, i)).bool_or(false),
            forbidden: scheme.field(step_key("step_forbidden"@, i)).bool_or(false),
        }
    }
}

/// The year that a value gives: the number it writes with digits alone, where
/// that fits in 64 bits, cut to the width of `usize`; else 0.
pub open spec fn year_of(j: JsonView) -> usize {
    match j {
        JsonView::Number(t) => match crate::number::unsigned_of(t) {
            Some(y) => y as usize,
            None => 0,
        },
        _ => 0,
    }
}

/// The reference that an item of `references` gives; none where it has no
/// text under `id`.
pub open spec fn reference_of(item: JsonView) -> Option<ReferenceEntryView> {
    match item.field("id"@).as_text() {
        None => None,
        Some(id) => Some(
            ReferenceEntryView {
                id,
                authors: item.field("authors"@).text_or(Seq::empty()),
                year: year_of(item.field("year"@)),
            },
        ),
    }
}

/// The references that the first `n` items give, in order.
pub open spec fn references_of(items: Seq<JsonView>, n: int) -> Seq<ReferenceEntryView>
    decreases n,
{
    if n <= 0 {
        Seq::empty()
    } else {
        match reference_of(items[n - 1]) {
            Some(r) => references_of(items, n - 1).push(r),
            None => references_of(items, n - 1),
        }
    }
}

/// Whether a value is a number.
pub open spec fn is_numeric_item(j: JsonView) -> bool {
    j matches JsonView::Number(t) && is_float_text(t)
}

/// The numbers of an array, where each item is a number.
pub open spec fn numbers_of_items(items: Seq<JsonView>) -> Result<Seq<Seq<char>>, Seq<char>> {
    if forall|i: int| 0 <= i < items.len() ==> is_numeric_item(#[trigger] items[i]) {
        Ok(Seq::new(items.len(), |i: int| items[i]->Number_0))
    } else {
        Err("None-numeric value found in data."@)
    }
}

/// The values of an axis of a curve, which have to be there.
pub open spec fn axis_of(
    data: JsonView,
    key: Seq<char>,
    label: Seq<char>,
    title: Seq<char>,
) -> Result<Seq<Seq<char>>, Seq<char>> {
    match data.field(key).as_items() {
        Some(items) => numbers_of_items(items),
        None => Err(
            "No saturation "@ + label + " data found in the JSON file for "@ + title + "."@,
        ),
    }
}

/// The uncertainties of an axis of a curve, which need not be there.
pub open spec fn axis_uncertainties_of(data: JsonView, key: Seq<char>) -> Result<
    Option<Seq<Seq<char>>>,
    Seq<char>,
> {
    match data.field(key).as_items() {
        Some(items) => match numbers_of_items(items) {
            Ok(v) => Ok(Some(v)),
            Err(e) => Err(e),
        },
        None => Ok(None),
    }
}

/// The unit of a curve that a value names: power for `W`, irradiance for
/// anything else.
pub open spec fn curve_unit_of(j: JsonView) -> SaturationCurveUnit {
    if j == JsonView::Str("W"@) {
        SaturationCurveUnit::W
    } else {
        SaturationCurveUnit::WCM2
    }
}

/// The curve that an item of `saturation_curves` with the given title gives,
/// or the message for the first thing found wrong.  The item is looked at in
/// this order: `x` is there and holds numbers; `y` is there and holds
/// numbers; `x` and `y` are equally long; `x_err`, then `y_err`, holds
/// numbers and is as long as its values.
pub open spec fn curve_of(item: JsonView, title: Seq<char>) -> Result<
    SaturationCurveView,
    Seq<char>,
> {
    let data = item.field("data"@);
    if axis_of(data, "x"@, "x"@, title) is Err {
        Err(axis_of(data, "x"@, "x"@, title)->Err_0)
    } else if axis_of(data, "y"@, "y"@, title) is Err {
        Err(axis_of(data, "y"@, "y"@, title)->Err_0)
    } else if axis_of(data, "x"@, "x"@, title)->Ok_0.len() != axis_of(
        data,
        "y"@,
        "y"@,
        title,
    )->Ok_0.len() {
        Err("X and Y data lengths do not match."@)
    } else if axis_uncertainties_of(data, "x_err"@) is Err {
        Err(axis_uncertainties_of(data, "x_err"@)->Err_0)
    } else if axis_uncertainties_of(data, "x_err"@)->Ok_0 matches Some(u) && u.len() != axis_of(
        data,
        "x"@,
        "x"@,
        title,
    )->Ok_0.len() {
        Err("Uncertainty x data length does not match the x data length."@)
    } else if axis_uncertainties_of(data, "y_err"@) is Err {
        Err(axis_uncertainties_of(data, "y_err"@)->Err_0)
    } else if axis_uncertainties_of(data, "y_err"@)->Ok_0 matches Some(u) && u.len() != axis_of(
        data,
        "y"@,
        "y"@,
        title,
    )->Ok_0.len() {
        Err("Uncertainty y data length does not match the y data length."@)
    } else {
        Ok(
            SaturationCurveView {
                title,
                notes: item.field("notes"@).text_or(Seq::empty()),
                units: curve_unit_of(item.field("unit"@)),
                fit: item.field("fit"@).bool_or(true),
                xdat: axis_of(data, "x"@, "x"@, title)->Ok_0,
                xdat_unc: axis_uncertainties_of(data, "x_err"@)->Ok_0,
                ydat: axis_of(data, "y"@, "y"@, title)->Ok_0,
                ydat_unc: axis_uncertainties_of(data, "y_err"@)->Ok_0,
            },
        )
    }
}

/// Every curve that is read has data that fit together.
pub proof fn lemma_curves_read_fit(items: Seq<JsonView>, n: int)
    requires
        curves_of(items, n) is Ok,
    ensures
        forall|i: int|
            0 <= i < curves_of(items, n)->Ok_0.len() ==> (#[trigger] curves_of(
                items,
                n,
            )->Ok_0[i]).lengths_match(),
    decreases n,
{
    if n > 0 {
        lemma_curves_read_fit(items, n - 1);
    }
}

/// The curves that the first `n` items give, in order, or the message for
/// the first item that has something wrong.  An item without a text under
/// `title` is passed over.
pub open spec fn curves_of(items: Seq<JsonView>, n: int) -> Result<
    Seq<SaturationCurveView>,
    Seq<char>,
>
    decreases n,
{
    if n <= 0 {
        Ok(Seq::empty())
    } else {
        match curves_of(items, n - 1) {
            Err(e) => Err(e),
            Ok(before) => match items[n - 1].field("title"@).as_text() {
                None => Ok(before),
                Some(title) => match curve_of(items[n - 1], title) {
                    Ok(c) => Ok(before.push(c)),
                    Err(e) => Err(e),
                },
            },
        }
    }
}

/// The items of an array, or none for any other value.
pub open spec fn items_or_none(j: JsonView) -> Seq<JsonView> {
    match j {
        JsonView::Array(a) => a,
        _ => Seq::empty(),
    }
}

/// What keeps a document from being read, if anything.  The checks are made
/// in this order: the scheme is there; it names an element that exists; it
/// names the lasers; it names a unit; each saturation curve is sound.
pub open spec fn submission_error(doc: JsonView) -> Option<Seq<char>> {
    if scheme_of(doc) is None {
        Some("No 'rims_scheme' or 'scheme' key found."@)
    } else {
        let scheme = scheme_of(doc)->Some_0;
        if scheme.field("element"@).as_text() is None {
            Some("No element found in the JSON file."@)
        } else if element_of_symbol(scheme.field("element"@).as_text()->Some_0) is None {
            Some("Element "@ + scheme.field("element"@).as_text()->Some_0 + " not found."@)
        } else if scheme.field("lasers"@).as_text() is None {
            Some("No laser type found in the JSON file."@)
        } else if lasers_of_name(scheme.field("lasers"@).as_text()->Some_0) is None {
            Some("Laser type not found."@)
        } else if scheme.field("unit"@).as_text() is None {
            Some("No unit found in the JSON file."@)
        } else {
            let curves = items_or_none(doc.field("saturation_curves"@));
            match curves_of(curves, curves.len() as int) {
                Err(e) => Some(e),
                Ok(_) => None,
            }
        }
    }
}

/// The submission that a document holds, where nothing keeps it from being
/// read.  What the document does not say is taken as: ground state level
/// `0`, flags off but for `fit`, which is on, and every text empty.
pub open spec fn submission_read(doc: JsonView) -> SubmissionView {
    let scheme = scheme_of(doc)->Some_0;
    let refs = items_or_none(doc.field("references"@));
    let curves = items_or_none(doc.field("saturation_curves"@));
    SubmissionView {
        notes: doc.field("notes"@).text_or(Seq::empty()),
        references: references_of(refs, refs.len() as int),
        saturation_curves: curves_of(curves, curves.len() as int)->Ok_0,
        scheme_element: element_of_symbol(scheme.field("element"@).as_text()->Some_0)->Some_0,
        scheme_gs: GroundStateView {
            level: scheme.field("gs_level"@).text_or("0"@),
            term_symbol: scheme.field("gs_term"@).text_or(Seq::empty()),
        },
        scheme_ip_term_symbol: scheme.field("ip_term"@).text_or(Seq::empty()),
        scheme_lasers: lasers_of_name(scheme.field("lasers"@).as_text()->Some_0)->Some_0,
        scheme_transitions: Seq::new(7, |i: int| step_of(scheme, i)),
        scheme_last_step_to_ip: scheme.field("last_step_to_ip"@).bool_or(false),
        scheme_unit: unit_of_name(scheme.field("unit"@).as_text()->Some_0),
        submitted_by: doc.field("submitted_by"@).text_or(Seq::empty()),
    }
}

/// The submission that a document holds, or the message that says why it
/// holds none.
pub open spec fn submission_of(doc: JsonView) -> Result<SubmissionView, Seq<char>> {
    match submission_error(doc) {
        Some(e) => Err(e),
        None => Ok(submission_read(doc)),
    }
}

/// The view of a submission or an error message.
pub open spec fn submission_result(r: Result<Submission, String>) -> Result<
    SubmissionView,
    Seq<char>,
> {
    match r {
        Ok(m) => Ok(m@),
        Err(e) => Err(e@),
    }
}

/// The view of a value that may be missing: `Null` where it is.
pub open spec fn view_or_null(j: Option<&Json>) -> JsonView {
    match j {
        Some(v) => v@,
        None => JsonView::Null,
    }
}

fn field<'a>(j: Option<&'a Json>, key: &str) -> (r: Option<&'a Json>)
    ensures
        view_or_null(r) == view_or_null(j).field(key@),
{
    match j {
        Some(v) => v.get(key),
        None => None,
    }
}

fn text_or(j: Option<&Json>, default: &str) -> (r: String)
    ensures
        r@ == view_or_null(j).text_or(default@),
{
    match j {
        Some(v) => match v.as_str() {
            Some(s) => s.clone(),
            None => default.to_owned(),
        },
        None => default.to_owned(),
    }
}

fn bool_or(j: Option<&Json>, default: bool) -> (r: bool)
    ensures
        r == view_or_null(j).bool_or(default),
{
    match j {
        Some(v) => match v.as_bool() {
            Some(b) => b,
            None => default,
        },
        None => default,
    }
}

fn as_text<'a>(j: Option<&'a Json>) -> (r: Option<&'a String>)
    ensures
        match r {
            Some(s) => view_or_null(j).as_text() == Some(s@),
            None => view_or_null(j).as_text().is_none(),
        },
{
    match j {
        Some(v) => v.as_str(),
        None => None,
    }
}

fn as_items<'a>(j: Option<&'a Json>) -> (r: Option<&'a Vec<Json>>)
    ensures
        match r {
            Some(a) => view_or_null(j).as_items() == Some(items_view(a@)),
            None => view_or_null(j).as_items().is_none(),
        },
{
    match j {
        Some(v) => v.as_array(),
        None => None,
    }
}

fn is_null(j: Option<&Json>) -> (r: bool)
    ensures
        r == (view_or_null(j) is Null),
{
    match j {
        Some(Json::Null) => true,
        Some(_) => false,
        None => true,
    }
}

fn is_object(j: Option<&Json>) -> (r: bool)
    ensures
        r == (view_or_null(j) is Object),
{
    match j {
        Some(v) => v.is_object(),
        None => false,
    }
}

/// Reads the numbers of an array.  Each item has to be a number; the numbers
/// are returned by their literal text.
pub fn json_array_to_f64(data: &Vec<Json>) -> (r: Result<Vec<String>, String>)
    ensures
        match r {
            Ok(v) => numbers_of_items(items_view(data@)) == Ok::<Seq<Seq<char>>, Seq<char>>(
                texts_view(v@),
            ),
            Err(e) => numbers_of_items(items_view(data@)) == Err::<Seq<Seq<char>>, Seq<char>>(e@),
        },
{
    let mut out: Vec<String> = Vec::new();
    let mut i: usize = 0;
    let ghost items = items_view(data@);
    while i < data.len()
        invariant
            i <= data.len(),
            items == items_view(data@),
            out@.len() == i,
            forall|k: int| 0 <= k < i ==> is_numeric_item(#[trigger] items[k]),
            forall|k: int| 0 <= k < i ==> (#[trigger] out@[k])@ == items[k]->Number_0,
        decreases data.len() - i,
    {
        assert(items[i as int] == data@[i as int]@);
        match data[i].as_number() {
            Some(t) => {
                if !is_number(t.as_str()) {
                    assert(!is_numeric_item(items[i as int]));
                    return Err("None-numeric value found in data.".to_owned());
                }
                out.push(t.clone());
            },
            None => {
                assert(!is_numeric_item(items[i as int]));
                return Err("None-numeric value found in data.".to_owned());
            },
        }
        i += 1;
    }
    assert(texts_view(out@) =~= Seq::new(items.len(), |i: int| items[i]->Number_0));
    Ok(out)
}

fn read_year(j: Option<&Json>) -> (r: usize)
    ensures
        r == year_of(view_or_null(j)),
{
    match j {
        Some(v) => match v.as_number() {
            Some(t) => match crate::number::parse_unsigned(t.as_str()) {
                Some(y) => #[verifier::truncate]
                (y as usize),
                None => 0,
            },
            None => 0,
        },
        None => 0,
    }
}

fn read_reference(item: &Json) -> (r: Option<ReferenceEntry>)
    ensures
        match r {
            Some(e) => reference_of(item@) == Some(e@),
            None => reference_of(item@).is_none(),
        },
{
    let id = match as_text(item.get("id")) {
        Some(id) => id,
        None => { return None; },
    };
    let authors = text_or(item.get("authors"), "");
    let year = read_year(item.get("year"));
    proof {
        reveal_strlit("");
        assert(""@ =~= Seq::<char>::empty());
    }
    if authors.as_str().is_empty() && year == 0 {
        assert(authors@ =~= Seq::<char>::empty());
        Some(ReferenceEntry::new_from_doi(id.as_str()))
    } else {
        Some(ReferenceEntry::new_from_url(id.as_str(), authors.as_str(), year))
    }
}

fn read_axis(data: Option<&Json>, key: &str, label: &str, title: &str) -> (r: Result<
    Vec<String>,
    String,
>)
    ensures
        match r {
            Ok(v) => axis_of(view_or_null(data), key@, label@, title@) == Ok::<
                Seq<Seq<char>>,
                Seq<char>,
            >(texts_view(v@)),
            Err(e) => axis_of(view_or_null(data), key@, label@, title@) == Err::<
                Seq<Seq<char>>,
                Seq<char>,
            >(e@),
        },
{
    match as_items(field(data, key)) {
        Some(items) => json_array_to_f64(items),
        None => {
            let mut e = "No saturation ".to_owned();
            e.append(label);
            e.append(" data found in the JSON file for ");
            e.append(title);
            e.append(".");
            Err(e)
        },
    }
}

fn read_axis_uncertainties(data: Option<&Json>, key: &str) -> (r: Result<
    Option<Vec<String>>,
    String,
>)
    ensures
        match r {
            Ok(v) => axis_uncertainties_of(view_or_null(data), key@) == Ok::<
                Option<Seq<Seq<char>>>,
                Seq<char>,
            >(crate::model::optional_texts_view(v)),
            Err(e) => axis_uncertainties_of(view_or_null(data), key@) == Err::<
                Option<Seq<Seq<char>>>,
                Seq<char>,
            >(e@),
        },
{
    match as_items(field(data, key)) {
        Some(items) => match json_array_to_f64(items) {
            Ok(v) => Ok(Some(v)),
            Err(e) => Err(e),
        },
        None => Ok(None),
    }
}

fn read_curve(item: &Json, title: &String) -> (r: Result<SaturationCurve, String>)
    ensures
        crate::model::curve_result(r) == curve_of(item@, title@),
        r matches Ok(c) ==> c@.lengths_match(),
{
    let notes = text_or(item.get("notes"), "");
    let units = match as_text(item.get("unit")) {
        Some(u) => if crate::text::same_text(u.as_str(), "W") {
            SaturationCurveUnit::W
        } else {
            SaturationCurveUnit::WCM2
        },
        None => SaturationCurveUnit::WCM2,
    };
    let fit = bool_or(item.get("fit"), true);
    let data = item.get("data");
    let xdat = match read_axis(data, "x", "x", title.as_str()) {
        Ok(v) => v,
        Err(e) => { return Err(e); },
    };
    let ydat = match read_axis(data, "y", "y", title.as_str()) {
        Ok(v) => v,
        Err(e) => { return Err(e); },
    };
    if xdat.len() != ydat.len() {
        return Err("X and Y data lengths do not match.".to_owned());
    }
    let xdat_unc = match read_axis_uncertainties(data, "x_err") {
        Ok(v) => v,
        Err(e) => { return Err(e); },
    };
    match &xdat_unc {
        Some(u) => {
            if u.len() != xdat.len() {
                return Err(
                    "Uncertainty x data length does not match the x data length.".to_owned(),
                );
            }
        },
        None => {},
    }
    let ydat_unc = match read_axis_uncertainties(data, "y_err") {
        Ok(v) => v,
        Err(e) => { return Err(e); },
    };
    match &ydat_unc {
        Some(u) => {
            if u.len() != ydat.len() {
                return Err(
                    "Uncertainty y data length does not match the y data length.".to_owned(),
                );
            }
        },
        None => {},
    }
    proof {
        reveal_strlit("");
        assert(""@ =~= Seq::<char>::empty());
    }
    Ok(SaturationCurve { title: title.clone(), notes, units, fit, xdat, xdat_unc, ydat, ydat_unc })
}

fn read_step(scheme: Option<&Json>, i: usize) -> (r: Transition)
    requires
        i < 7,
    ensures
        r@ == step_of(view_or_null(scheme), i as int),
{
    proof {
        reveal_strlit("");
        assert(""@ =~= Seq::<char>::empty());
    }
    if is_null(field(scheme, step_key_text("step_level", i).as_str())) {
        Transition::new_empty()
    } else {
        Transition {
            level: text_or(field(scheme, step_key_text("step_level", i).as_str()), ""),
            term_symbol: text_or(field(scheme, step_key_text("step_term", i).as_str()), ""),
            transition_strength: text_or(
                field(scheme, step_key_text("trans_strength", i).as_str()),
                "",
            ),
            low_lying: bool_or(field(scheme, step_key_text("step_lowlying", i).as_str()), false),
            forbidden: bool_or(field(scheme, step_key_text("step_forbidden", i).as_str()), false),
        }
    }
}

fn read_references(doc: &Json) -> (r: Vec<ReferenceEntry>)
    ensures
        crate::model::references_view(r@) == references_of(
            items_or_none(doc@.field("references"@)),
            items_or_none(doc@.field("references"@)).len() as int,
        ),
{
    let mut out: Vec<ReferenceEntry> = Vec::new();
    assert(crate::model::references_view(out@) =~= Seq::empty());
    match as_items(doc.get("references")) {
        Some(items) => {
            let ghost all = items_view(items@);
            let mut i: usize = 0;
            while i < items.len()
                invariant
                    i <= items.len(),
                    all == items_view(items@),
                    crate::model::references_view(out@) == references_of(all, i as int),
                decreases items.len() - i,
            {
                assert(all[i as int] == items@[i as int]@);
                match read_reference(&items[i]) {
                    Some(e) => {
                        proof {
                            crate::model::lemma_references_view_push(out@, e);
                        }
                        out.push(e);
                    },
                    None => {},
                }
                i += 1;
            }
        },
        None => {},
    }
    out
}

fn read_curves(doc: &Json) -> (r: Result<Vec<SaturationCurve>, String>)
    ensures
        match r {
            Ok(v) => curves_of(
                items_or_none(doc@.field("saturation_curves"@)),
                items_or_none(doc@.field("saturation_curves"@)).len() as int,
            ) == Ok::<Seq<SaturationCurveView>, Seq<char>>(crate::model::curves_view(v@)),
            Err(e) => curves_of(
                items_or_none(doc@.field("saturation_curves"@)),
                items_or_none(doc@.field("saturation_curves"@)).len() as int,
            ) == Err::<Seq<SaturationCurveView>, Seq<char>>(e@),
        },
{
    let mut out: Vec<SaturationCurve> = Vec::new();
    assert(crate::model::curves_view(out@) =~= Seq::empty());
    match as_items(doc.get("saturation_curves")) {
        Some(items) => {
            let ghost all = items_view(items@);
            let mut i: usize = 0;
            while i < items.len()
                invariant
                    i <= items.len(),
                    all == items_view(items@),
                    all == items_or_none(doc@.field("saturation_curves"@)),
                    curves_of(all, i as int) == Ok::<Seq<SaturationCurveView>, Seq<char>>(
                        crate::model::curves_view(out@),
                    ),
                decreases items.len() - i,
            {
                assert(all[i as int] == items@[i as int]@);
                match as_text(items[i].get("title")) {
                    Some(title) => match read_curve(&items[i], title) {
                        Ok(c) => {
                            proof {
                                crate::model::lemma_curves_view_push(out@, c);
                            }
                            out.push(c);
                        },
                        Err(e) => {
                            proof {
                                lemma_curves_error_stays(all, i + 1, all.len() as int);
                            }
                            return Err(e);
                        },
                    },
                    None => {},
                }
                i += 1;
            }
        },
        None => {},
    }
    Ok(out)
}

/// Once an item has something wrong, the first thing wrong stays the same
/// however many more items are looked at.
pub proof fn lemma_curves_error_stays(items: Seq<JsonView>, n: int, m: int)
    requires
        0 <= n <= m,
        curves_of(items, n) is Err,
    ensures
        curves_of(items, m) == curves_of(items, n),
    decreases m - n,
{
    if n < m {
        lemma_curves_error_stays(items, n, m - 1);
    }
}

fn read_lasers(name: &str) -> (r: Option<Lasers>)
    ensures
        r == lasers_of_name(name@),
{
    if crate::text::same_text(name, "Ti:Sa") {
        Some(Lasers::TiSa)
    } else if crate::text::same_text(name, "Dye") {
        Some(Lasers::Dye)
    } else if crate::text::same_text(name, "Ti:Sa and Dye") {
        Some(Lasers::Both)
    } else {
        None
    }
}

/// Reads the submission that a document holds.  Both layouts of the scheme
/// are read.  The result stands for itself: nothing of an earlier submission
/// goes into it.
pub fn from_document(doc: &Json) -> (r: Result<Submission, String>)
    ensures
        submission_result(r) == submission_of(doc@),
        r matches Ok(m) ==> forall|i: int|
            0 <= i < m@.saturation_curves.len() ==> (
            #[trigger] m@.saturation_curves[i]).lengths_match(),
{
    proof {
        let curves = items_or_none(doc@.field("saturation_curves"@));
        if curves_of(curves, curves.len() as int) is Ok {
            lemma_curves_read_fit(curves, curves.len() as int);
        }
    }
    let nested = doc.get("rims_scheme");
    let flat = doc.get("scheme");
    let scheme = if is_object(nested) {
        field(nested, "scheme")
    } else if is_object(flat) {
        flat
    } else {
        return Err("No 'rims_scheme' or 'scheme' key found.".to_owned());
    };
    assert(scheme_of(doc@) == Some(view_or_null(scheme)));
    let element = match as_text(field(scheme, "element")) {
        Some(symbol) => match Elements::from_str(symbol.as_str()) {
            Ok(element) => element,
            Err(e) => { return Err(e); },
        },
        None => { return Err("No element found in the JSON file.".to_owned()); },
    };
    let gs = GroundState {
        level: text_or(field(scheme, "gs_level"), "0"),
        term_symbol: text_or(field(scheme, "gs_term"), ""),
    };
    let ip_term = text_or(field(scheme, "ip_term"), "");
    let lasers = match as_text(field(scheme, "lasers")) {
        Some(name) => match read_lasers(name.as_str()) {
            Some(lasers) => lasers,
            None => { return Err("Laser type not found.".to_owned()); },
        },
        None => { return Err("No laser type found in the JSON file.".to_owned()); },
    };
    let last_step_to_ip = bool_or(field(scheme, "last_step_to_ip"), false);
    let transitions = [
        read_step(scheme, 0),
        read_step(scheme, 1),
        read_step(scheme, 2),
        read_step(scheme, 3),
        read_step(scheme, 4),
        read_step(scheme, 5),
        read_step(scheme, 6),
    ];
    let unit = match as_text(field(scheme, "unit")) {
        Some(name) => if crate::text::same_text(name.as_str(), "nm") {
            TransitionUnit::NM
        } else {
            TransitionUnit::CM1
        },
        None => { return Err("No unit found in the JSON file.".to_owned()); },
    };
    let notes = text_or(doc.get("notes"), "");
    let references = read_references(doc);
    let saturation_curves = match read_curves(doc) {
        Ok(v) => v,
        Err(e) => { return Err(e); },
    };
    let submitted_by = text_or(doc.get("submitted_by"), "");
    proof {
        reveal_strlit("");
        assert(""@ =~= Seq::<char>::empty());
        assert(crate::model::transitions_view(transitions@) =~= Seq::new(
            7,
            |i: int| step_of(view_or_null(scheme), i),
        ));
    }
    Ok(
        Submission {
            notes,
            references,
            saturation_curves,
            scheme_element: element,
            scheme_gs: gs,
            scheme_ip_term_symbol: ip_term,
            scheme_lasers: lasers,
            scheme_transitions: transitions,
            scheme_last_step_to_ip: last_step_to_ip,
            scheme_unit: unit,
            submitted_by,
        },
    )
}

/// What reading a text gives, given what parsing the text gives: the
/// submission of the parsed document; the message that says why the document
/// holds none; or, where parsing fails, the message of that failure behind
/// `Error reading JSON file: `.
pub open spec fn loaded_submission_of(parsed: Result<JsonView, Seq<char>>) -> Result<
    SubmissionView,
    Seq<char>,
> {
    match parsed {
        Ok(doc) => submission_of(doc),
        Err(e) => Err("Error reading JSON file: "@ + e),
    }
}

/// Reads a submission from JSON text, in either layout.
pub fn load_config_file(text: &str) -> (r: Result<Submission, String>)
    ensures
        submission_result(r) == loaded_submission_of(parsed_json(text@)),
        r matches Ok(m) ==> forall|i: int|
            0 <= i < m@.saturation_curves.len() ==> (
            #[trigger] m@.saturation_curves[i]).lengths_match(),
{
    match parse_json(text) {
        Ok(doc) => from_document(&doc),
        Err(e) => Err(join2("Error reading JSON file: ", e.as_str())),
    }
}

/// A submission without the name of the submitter has no document, whatever
/// else it holds: where the first step has a level and the name is empty,
/// writing fails with the request for the name.
pub proof fn law_name_is_required(m: SubmissionView)
    requires
        m.scheme_transitions[0].level.len() > 0,
        m.submitted_by.len() == 0,
    ensures
        document_of(m) == Err::<JsonView, Seq<char>>("Please enter your name."@),
{
}

/// A submission without a first step has no document, whatever else it
/// holds: where the level of the first step is empty, writing fails with the
/// request for a step, also where the name of the submitter is given.
pub proof fn law_first_step_is_required(m: SubmissionView)
    requires
        m.scheme_transitions[0].level.len() == 0,
    ensures
        document_of(m) == Err::<JsonView, Seq<char>>(
            "No transitions entered: Please add at least one step."@,
        ),
{
}

/// The older layout is read like the newer one: a document with the scheme
/// directly under `scheme`, and no object under `rims_scheme`, holds the same
/// submission as a document that has this scheme under `rims_scheme.scheme`
/// and is the same otherwise.
pub proof fn law_both_layouts_read_alike(older: JsonView, newer: JsonView)
    requires
        !(older.field("rims_scheme"@) is Object),
        older.field("scheme"@) is Object,
        newer.field("rims_scheme"@) is Object,
        newer.field("rims_scheme"@).field("scheme"@) == older.field("scheme"@),
        newer.field("notes"@) == older.field("notes"@),
        newer.field("references"@) == older.field("references"@),
        newer.field("saturation_curves"@) == older.field("saturation_curves"@),
        newer.field("submitted_by"@) == older.field("submitted_by"@),
    ensures
        submission_of(newer) == submission_of(older),
{
    assert(scheme_of(newer) == scheme_of(older));
}

} // verus!
