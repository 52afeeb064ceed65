//! Writing a submission and reading it back.
//!
//! The proofs here show that the document of a submission holds the
//! submission: what is read from it is what was written, but for two things
//! that a document does not keep.

use vstd::prelude::*;
use crate::codec::{
    axis_of, curve_json, curve_of, curve_unit_name, curve_unit_of, curves_of, data_members,
    document_of, document_tree, is_numeric_item, lasers_of_name, numbers_json, numbers_of_items,
    reference_json, reference_of, references_of, scheme_members, scheme_of, step_key,
    step_members, step_of, steps_members, submission_error, submission_of, submission_read,
    unit_name, unit_of_name,
};
use crate::elements::law_symbol_round_trip;
use crate::json::{lookup, lookup_among, JsonView};
use crate::model::{
    empty_transition, Lasers, ReferenceEntryView, SaturationCurveUnit, SaturationCurveView,
    SubmissionView, TransitionUnit, TransitionView,
};
use crate::number::{
    decimal_text, digit_char, is_float_text, json_number_of, lemma_json_number_is_float,
    lemma_unsigned_of_decimal_text,
};

verus! {

/// Among the members of `a` followed by those of `b`, a key has the value
/// that `b` gives it, and where `b` gives it none, the value that `a` gives.
pub proof fn lemma_lookup_concat(
    a: Seq<(Seq<char>, JsonView)>,
    b: Seq<(Seq<char>, JsonView)>,
    key: Seq<char>,
)
    ensures
        lookup(a + b, key) == (if lookup(b, key) is Some {
            lookup(b, key)
        } else {
            lookup(a, key)
        }),
{
    lemma_lookup_concat_among(a, b, key, b.len() as int);
}

proof fn lemma_lookup_concat_among(
    a: Seq<(Seq<char>, JsonView)>,
    b: Seq<(Seq<char>, JsonView)>,
    key: Seq<char>,
    k: int,
)
    requires
        0 <= k <= b.len(),
    ensures
        lookup_among(a + b, key, a.len() + k) == (if lookup_among(b, key, k) is Some {
            lookup_among(b, key, k)
        } else {
            lookup(a, key)
        }),
    decreases k,
{
    if k > 0 {
        lemma_lookup_concat_among(a, b, key, k - 1);
        assert((a + b)[a.len() + k - 1] == b[k - 1]);
    } else {
        lemma_lookup_prefix(a + b, a, key, a.len() as int);
    }
}

proof fn lemma_lookup_prefix(
    x: Seq<(Seq<char>, JsonView)>,
    y: Seq<(Seq<char>, JsonView)>,
    key: Seq<char>,
    n: int,
)
    requires
        0 <= n <= x.len(),
        n <= y.len(),
        forall|k: int| 0 <= k < n ==> x[k] == y[k],
    ensures
        lookup_among(x, key, n) == lookup_among(y, key, n),
    decreases n,
{
    if n > 0 {
        lemma_lookup_prefix(x, y, key, n - 1);
    }
}

/// The names of the five fields of a step.
pub open spec fn is_step_field(name: Seq<char>) -> bool {
    name == "step_level"@ || name == "step_term"@ || name == "trans_strength"@ || name
        == "step_forbidden"@ || name == "step_lowlying"@
}

/// The names of the seven fields of a scheme that belong to no step.
pub open spec fn is_scheme_field(name: Seq<char>) -> bool {
    name == "element"@ || name == "lasers"@ || name == "last_step_to_ip"@ || name == "gs_term"@
        || name == "gs_level"@ || name == "ip_term"@ || name == "unit"@
}

/// What a used step holds under a field name.
pub open spec fn step_field_value(t: TransitionView, name: Seq<char>) -> JsonView {
    if name == "step_level"@ {
        JsonView::Str(t.level)
    } else if name == "step_term"@ {
        JsonView::Str(t.term_symbol)
    } else if name == "trans_strength"@ {
        JsonView::Str(t.transition_strength)
    } else if name == "step_forbidden"@ {
        JsonView::Bool(t.forbidden)
    } else {
        JsonView::Bool(t.low_lying)
    }
}

/// The keys of a document differ from each other as far as the proofs here
/// need it.
proof fn lemma_key_texts()
    ensures
        "step_level"@.len() == 10,
        "step_term"@.len() == 9,
        "trans_strength"@.len() == 14,
        "step_forbidden"@.len() == 14,
        "step_lowlying"@.len() == 13,
        "trans_strength"@[0] == 't',
        "step_forbidden"@[0] == 's',
        "element"@.len() == 7 && "element"@[6] == 't' && "element"@[0] == 'e',
        "lasers"@.len() == 6 && "lasers"@[5] == 's',
        "last_step_to_ip"@.len() == 15 && "last_step_to_ip"@[14] == 'p',
        "gs_term"@.len() == 7 && "gs_term"@[6] == 'm' && "gs_term"@[0] == 'g',
        "gs_level"@.len() == 8 && "gs_level"@[7] == 'l',
        "ip_term"@.len() == 7 && "ip_term"@[6] == 'm' && "ip_term"@[0] == 'i',
        "unit"@.len() == 4 && "unit"@[3] == 't',
{
    reveal_strlit("step_level");
    reveal_strlit("step_term");
    reveal_strlit("trans_strength");
    reveal_strlit("step_forbidden");
    reveal_strlit("step_lowlying");
    reveal_strlit("element");
    reveal_strlit("lasers");
    reveal_strlit("last_step_to_ip");
    reveal_strlit("gs_term");
    reveal_strlit("gs_level");
    reveal_strlit("ip_term");
    reveal_strlit("unit");
}

/// Two keys of steps are the same only for the same field of the same step.
proof fn lemma_step_keys_differ(a: Seq<char>, i: int, b: Seq<char>, j: int)
    requires
        0 <= i < 10,
        0 <= j < 10,
        step_key(a, i) == step_key(b, j),
    ensures
        a == b,
        i == j,
{
    let x = step_key(a, i);
    let y = step_key(b, j);
    assert(x.len() == a.len() + 1);
    assert(y.len() == b.len() + 1);
    assert(x[a.len() as int] == digit_char(i));
    assert(y[b.len() as int] == digit_char(j));
    assert(a =~= x.drop_last());
    assert(b =~= y.drop_last());
}

/// No key of a step is the name of a field of the scheme.
proof fn lemma_step_key_is_no_scheme_field(name: Seq<char>, i: int, field: Seq<char>)
    requires
        0 <= i < 10,
        is_scheme_field(field),
    ensures
        step_key(name, i) != field,
{
    lemma_key_texts();
    let x = step_key(name, i);
    assert(x[x.len() - 1] == digit_char(i));
}

/// What the members of one step give to a key.
#[verifier::rlimit(40)]
proof fn lemma_step_members_lookup(t: TransitionView, i: int, key: Seq<char>)
    requires
        0 <= i < 10,
    ensures
        forall|name: Seq<char>| #[trigger]
            is_step_field(name) && key == step_key(name, i) ==> lookup(step_members(t, i), key)
                == Some(step_field_value(t, name)),
        (forall|name: Seq<char>| #[trigger] is_step_field(name) ==> key != step_key(name, i))
            ==> lookup(step_members(t, i), key).is_none(),
{
    lemma_key_texts();
    reveal_with_fuel(lookup_among, 6);
    let ms = step_members(t, i);
    assert(ms.len() == 5);
    assert(is_step_field("step_level"@));
    assert(is_step_field("step_term"@));
    assert(is_step_field("trans_strength"@));
    assert(is_step_field("step_forbidden"@));
    assert(is_step_field("step_lowlying"@));
    assert forall|name: Seq<char>| #[trigger]
        is_step_field(name) && key == step_key(name, i) implies lookup(ms, key) == Some(
        step_field_value(t, name),
    ) by {
        if name != "step_level"@ {
            if step_key("step_level"@, i) == key {
                lemma_step_keys_differ("step_level"@, i, name, i);
            }
        }
        if name != "step_term"@ {
            if step_key("step_term"@, i) == key {
                lemma_step_keys_differ("step_term"@, i, name, i);
            }
        }
        if name != "trans_strength"@ {
            if step_key("trans_strength"@, i) == key {
                lemma_step_keys_differ("trans_strength"@, i, name, i);
            }
        }
        if name != "step_forbidden"@ {
            if step_key("step_forbidden"@, i) == key {
                lemma_step_keys_differ("step_forbidden"@, i, name, i);
            }
        }
        if name != "step_lowlying"@ {
            if step_key("step_lowlying"@, i) == key {
                lemma_step_keys_differ("step_lowlying"@, i, name, i);
            }
        }
    }
}

/// What the members of the first `n` steps give to a key of step `i`: the
/// field of that step, where the step is among them and is used.
proof fn lemma_steps_lookup(ts: Seq<TransitionView>, n: int, name: Seq<char>, i: int)
    requires
        0 <= n <= 10,
        0 <= i < 10,
        is_step_field(name),
    ensures
        lookup(steps_members(ts, n), step_key(name, i)) == (if i < n && ts[i].level.len() > 0 {
            Some(step_field_value(ts[i], name))
        } else {
            None
        }),
    decreases n,
{
    if n > 0 {
        lemma_steps_lookup(ts, n - 1, name, i);
        let key = step_key(name, i);
        if ts[n - 1].level.len() > 0 {
            lemma_lookup_concat(steps_members(ts, n - 1), step_members(ts[n - 1], n - 1), key);
            lemma_step_members_lookup(ts[n - 1], n - 1, key);
            if i != n - 1 {
                assert forall|other: Seq<char>| #[trigger] is_step_field(other) implies key
                    != step_key(other, n - 1) by {
                    if key == step_key(other, n - 1) {
                        lemma_step_keys_differ(name, i, other, n - 1);
                    }
                }
            }
        }
    }
}

/// The members of the steps give nothing to the name of a field of the scheme.
proof fn lemma_steps_lookup_scheme_field(ts: Seq<TransitionView>, n: int, field: Seq<char>)
    requires
        0 <= n <= 10,
        is_scheme_field(field),
    ensures
        lookup(steps_members(ts, n), field).is_none(),
    decreases n,
{
    if n > 0 {
        lemma_steps_lookup_scheme_field(ts, n - 1, field);
        if ts[n - 1].level.len() > 0 {
            lemma_lookup_concat(steps_members(ts, n - 1), step_members(ts[n - 1], n - 1), field);
            lemma_step_members_lookup(ts[n - 1], n - 1, field);
            assert forall|other: Seq<char>| #[trigger] is_step_field(other) implies field
                != step_key(other, n - 1) by {
                lemma_step_key_is_no_scheme_field(other, n - 1, field);
            }
        }
    }
}

/// The seven members of a scheme that belong to no step.
pub open spec fn scheme_head(m: SubmissionView) -> Seq<(Seq<char>, JsonView)> {
    seq![
        ("element"@, JsonView::Str(m.scheme_element.symbol_spec())),
        ("lasers"@, JsonView::Str(m.scheme_lasers.name_spec())),
        ("last_step_to_ip"@, JsonView::Bool(m.scheme_last_step_to_ip)),
        ("gs_term"@, JsonView::Str(m.scheme_gs.term_symbol)),
        ("gs_level"@, JsonView::Str(m.scheme_gs.level)),
        ("ip_term"@, JsonView::Str(m.scheme_ip_term_symbol)),
        ("unit"@, JsonView::Str(unit_name(m.scheme_unit))),
    ]
}

/// What the scheme of a submission holds under each of its own field names.
#[verifier::rlimit(40)]
proof fn lemma_scheme_fields(m: SubmissionView)
    ensures
        JsonView::Object(scheme_members(m)).field("element"@) == JsonView::Str(
            m.scheme_element.symbol_spec(),
        ),
        JsonView::Object(scheme_members(m)).field("lasers"@) == JsonView::Str(
            m.scheme_lasers.name_spec(),
        ),
        JsonView::Object(scheme_members(m)).field("last_step_to_ip"@) == JsonView::Bool(
            m.scheme_last_step_to_ip,
        ),
        JsonView::Object(scheme_members(m)).field("gs_term"@) == JsonView::Str(
            m.scheme_gs.term_symbol,
        ),
        JsonView::Object(scheme_members(m)).field("gs_level"@) == JsonView::Str(m.scheme_gs.level),
        JsonView::Object(scheme_members(m)).field("ip_term"@) == JsonView::Str(
            m.scheme_ip_term_symbol,
        ),
        JsonView::Object(scheme_members(m)).field("unit"@) == JsonView::Str(
            unit_name(m.scheme_unit),
        ),
{
    lemma_key_texts();
    reveal_with_fuel(lookup_among, 8);
    let head = scheme_head(m);
    let steps = steps_members(m.scheme_transitions, 7);
    assert(scheme_members(m) == head + steps);
    assert(head.len() == 7);
    lemma_steps_lookup_scheme_field(m.scheme_transitions, 7, "element"@);
    lemma_steps_lookup_scheme_field(m.scheme_transitions, 7, "lasers"@);
    lemma_steps_lookup_scheme_field(m.scheme_transitions, 7, "last_step_to_ip"@);
    lemma_steps_lookup_scheme_field(m.scheme_transitions, 7, "gs_term"@);
    lemma_steps_lookup_scheme_field(m.scheme_transitions, 7, "gs_level"@);
    lemma_steps_lookup_scheme_field(m.scheme_transitions, 7, "ip_term"@);
    lemma_steps_lookup_scheme_field(m.scheme_transitions, 7, "unit"@);
    lemma_lookup_concat(head, steps, "element"@);
    lemma_lookup_concat(head, steps, "lasers"@);
    lemma_lookup_concat(head, steps, "last_step_to_ip"@);
    lemma_lookup_concat(head, steps, "gs_term"@);
    lemma_lookup_concat(head, steps, "gs_level"@);
    lemma_lookup_concat(head, steps, "ip_term"@);
    lemma_lookup_concat(head, steps, "unit"@);
}

/// What the scheme of a submission holds under a key of step `i`.
#[verifier::rlimit(40)]
proof fn lemma_scheme_step_field(m: SubmissionView, name: Seq<char>, i: int)
    requires
        0 <= i < 7,
        is_step_field(name),
    ensures
        JsonView::Object(scheme_members(m)).field(step_key(name, i)) == (if m.scheme_transitions[i].level.len()
            > 0 {
            step_field_value(m.scheme_transitions[i], name)
        } else {
            JsonView::Null
        }),
{
    lemma_key_texts();
    reveal_with_fuel(lookup_among, 8);
    let head = scheme_head(m);
    let steps = steps_members(m.scheme_transitions, 7);
    let key = step_key(name, i);
    assert(scheme_members(m) == head + steps);
    assert(head.len() == 7);
    lemma_steps_lookup(m.scheme_transitions, 7, name, i);
    lemma_lookup_concat(head, steps, key);
    assert(is_scheme_field("element"@));
    lemma_step_key_is_no_scheme_field(name, i, "element"@);
    lemma_step_key_is_no_scheme_field(name, i, "lasers"@);
    lemma_step_key_is_no_scheme_field(name, i, "last_step_to_ip"@);
    lemma_step_key_is_no_scheme_field(name, i, "gs_term"@);
    lemma_step_key_is_no_scheme_field(name, i, "gs_level"@);
    lemma_step_key_is_no_scheme_field(name, i, "ip_term"@);
    lemma_step_key_is_no_scheme_field(name, i, "unit"@);
    assert(lookup(head, key).is_none());
}

/// What is left of a step in a document: the step where it is used, and an
/// unused step where its level is empty.
pub open spec fn step_written_back(t: TransitionView) -> TransitionView {
    if t.level.len() > 0 {
        t
    } else {
        empty_transition()
    }
}

/// Step `i` read from the scheme of a submission is what is left of step `i`.
proof fn lemma_step_round_trip(m: SubmissionView, i: int)
    requires
        0 <= i < 7,
    ensures
        step_of(JsonView::Object(scheme_members(m)), i) == step_written_back(
            m.scheme_transitions[i],
        ),
{
    lemma_key_texts();
    lemma_scheme_step_field(m, "step_level"@, i);
    lemma_scheme_step_field(m, "step_term"@, i);
    lemma_scheme_step_field(m, "trans_strength"@, i);
    lemma_scheme_step_field(m, "step_forbidden"@, i);
    lemma_scheme_step_field(m, "step_lowlying"@, i);
}

/// A reference read from the object it was written as is the reference.
proof fn lemma_reference_round_trip(r: ReferenceEntryView)
    ensures
        reference_of(reference_json(r)) == Some(r),
{
    reveal_strlit("id");
    reveal_strlit("authors");
    reveal_strlit("year");
    reveal_with_fuel(lookup_among, 4);
    assert("id"@.len() == 2 && "authors"@.len() == 7 && "year"@.len() == 4);
    lemma_unsigned_of_decimal_text(r.year as nat);
    let ms = reference_json(r)->Object_0;
    assert(ms.len() == 3);
    assert(lookup(ms, "id"@) == Some(JsonView::Str(r.id)));
    assert(lookup(ms, "authors"@) == Some(JsonView::Str(r.authors)));
    assert(lookup(ms, "year"@) == Some(JsonView::Number(decimal_text(r.year as nat))));
}

/// The references read from the array they were written as are the
/// references.
proof fn lemma_references_round_trip(refs: Seq<ReferenceEntryView>, n: int)
    requires
        0 <= n <= refs.len(),
    ensures
        references_of(Seq::new(refs.len(), |i: int| reference_json(refs[i])), n) == refs.take(n),
    decreases n,
{
    if n > 0 {
        lemma_references_round_trip(refs, n - 1);
        lemma_reference_round_trip(refs[n - 1]);
        assert(refs.take(n) =~= refs.take(n - 1).push(refs[n - 1]));
    } else {
        assert(refs.take(0) =~= Seq::<ReferenceEntryView>::empty());
    }
}

/// Whether each text of a list is a number other than an infinity or a NaN.
pub open spec fn finite_numbers(v: Seq<Seq<char>>) -> bool {
    forall|i: int|
        0 <= i < v.len() ==> is_float_text(#[trigger] v[i]) && json_number_of(v[i]) is Some
}

/// The JSON literals of a list of numbers.
pub open spec fn numbers_written_back(v: Seq<Seq<char>>) -> Seq<Seq<char>> {
    Seq::new(v.len(), |i: int| json_number_of(v[i])->Some_0)
}

/// The numbers read from the array they were written as are their JSON
/// literals.
proof fn lemma_numbers_round_trip(v: Seq<Seq<char>>)
    requires
        finite_numbers(v),
    ensures
        numbers_json(v) is Array,
        numbers_of_items(numbers_json(v)->Array_0) == Ok::<Seq<Seq<char>>, Seq<char>>(
            numbers_written_back(v),
        ),
{
    let items = numbers_json(v)->Array_0;
    assert forall|i: int| 0 <= i < items.len() implies is_numeric_item(#[trigger] items[i]) by {
        assert(is_float_text(v[i]));
        lemma_json_number_is_float(v[i]);
    }
    assert(Seq::new(items.len(), |i: int| items[i]->Number_0) =~= numbers_written_back(v));
}

/// Whether each number of a curve is a number other than an infinity or a
/// NaN.
pub open spec fn curve_is_finite(c: SaturationCurveView) -> bool {
    &&& finite_numbers(c.xdat)
    &&& finite_numbers(c.ydat)
    &&& (c.xdat_unc matches Some(u) ==> finite_numbers(u))
    &&& (c.ydat_unc matches Some(u) ==> finite_numbers(u))
}

/// What is left of a curve in a document: the curve with each number as its
/// JSON literal.
pub open spec fn curve_written_back(c: SaturationCurveView) -> SaturationCurveView {
    SaturationCurveView {
        xdat: numbers_written_back(c.xdat),
        xdat_unc: match c.xdat_unc {
            Some(u) => Some(numbers_written_back(u)),
            None => None,
        },
        ydat: numbers_written_back(c.ydat),
        ydat_unc: match c.ydat_unc {
            Some(u) => Some(numbers_written_back(u)),
            None => None,
        },
        ..c
    }
}

/// What the `data` object of a curve holds under each of its keys.
proof fn lemma_data_fields(c: SaturationCurveView)
    ensures
        JsonView::Object(data_members(c)).field("x"@) == numbers_json(c.xdat),
        JsonView::Object(data_members(c)).field("y"@) == numbers_json(c.ydat),
        JsonView::Object(data_members(c)).field("x_err"@) == (match c.xdat_unc {
            Some(u) => numbers_json(u),
            None => JsonView::Null,
        }),
        JsonView::Object(data_members(c)).field("y_err"@) == (match c.ydat_unc {
            Some(u) => numbers_json(u),
            None => JsonView::Null,
        }),
{
    reveal_strlit("x");
    reveal_strlit("y");
    reveal_strlit("x_err");
    reveal_strlit("y_err");
    reveal_with_fuel(lookup_among, 5);
    assert("x"@.len() == 1 && "y"@.len() == 1 && "x_err"@.len() == 5 && "y_err"@.len() == 5);
    assert("x"@[0] == 'x' && "y"@[0] == 'y' && "x_err"@[0] == 'x' && "y_err"@[0] == 'y');
    let head = seq![("x"@, numbers_json(c.xdat)), ("y"@, numbers_json(c.ydat))];
    let xe: Seq<(Seq<char>, JsonView)> = match c.xdat_unc {
        Some(u) => seq![("x_err"@, numbers_json(u))],
        None => Seq::empty(),
    };
    let ye: Seq<(Seq<char>, JsonView)> = match c.ydat_unc {
        Some(u) => seq![("y_err"@, numbers_json(u))],
        None => Seq::empty(),
    };
    assert(data_members(c) == head + xe + ye);
    assert(head.len() == 2);
    lemma_lookup_concat(head + xe, ye, "x"@);
    lemma_lookup_concat(head + xe, ye, "y"@);
    lemma_lookup_concat(head + xe, ye, "x_err"@);
    lemma_lookup_concat(head + xe, ye, "y_err"@);
    lemma_lookup_concat(head, xe, "x"@);
    lemma_lookup_concat(head, xe, "y"@);
    lemma_lookup_concat(head, xe, "x_err"@);
    lemma_lookup_concat(head, xe, "y_err"@);
}

/// A curve read from the object it was written as is what is left of the
/// curve.
#[verifier::rlimit(40)]
proof fn lemma_curve_round_trip(c: SaturationCurveView)
    requires
        curve_is_finite(c),
        c.lengths_match(),
    ensures
        curve_json(c).field("title"@).as_text() == Some(c.title),
        curve_of(curve_json(c), c.title) == Ok::<SaturationCurveView, Seq<char>>(
            curve_written_back(c),
        ),
{
    reveal_strlit("title");
    reveal_strlit("notes");
    reveal_strlit("unit");
    reveal_strlit("fit");
    reveal_strlit("data");
    reveal_strlit("W");
    reveal_strlit("W * cm^-2");
    reveal_with_fuel(lookup_among, 6);
    assert("title"@.len() == 5 && "notes"@.len() == 5 && "unit"@.len() == 4 && "fit"@.len() == 3
        && "data"@.len() == 4);
    assert("title"@[0] == 't' && "notes"@[0] == 'n' && "unit"@[0] == 'u' && "data"@[0] == 'd');
    assert("W"@.len() == 1 && "W * cm^-2"@.len() == 9);
    let ms = curve_json(c)->Object_0;
    assert(ms.len() == 5);
    assert(lookup(ms, "title"@) == Some(JsonView::Str(c.title)));
    assert(lookup(ms, "notes"@) == Some(JsonView::Str(c.notes)));
    assert(lookup(ms, "unit"@) == Some(JsonView::Str(curve_unit_name(c.units))));
    assert(lookup(ms, "fit"@) == Some(JsonView::Bool(c.fit)));
    assert(lookup(ms, "data"@) == Some(JsonView::Object(data_members(c))));
    lemma_data_fields(c);
    lemma_numbers_round_trip(c.xdat);
    lemma_numbers_round_trip(c.ydat);
    match c.xdat_unc {
        Some(u) => {
            lemma_numbers_round_trip(u);
        },
        None => {},
    }
    match c.ydat_unc {
        Some(u) => {
            lemma_numbers_round_trip(u);
        },
        None => {},
    }
    assert(curve_unit_of(JsonView::Str(curve_unit_name(c.units))) == c.units) by {
        if c.units == SaturationCurveUnit::WCM2 {
            assert("W * cm^-2"@.len() != "W"@.len());
        }
    }
    let data = curve_json(c).field("data"@);
    assert(axis_of(data, "x"@, "x"@, c.title) == Ok::<Seq<Seq<char>>, Seq<char>>(
        numbers_written_back(c.xdat),
    ));
    assert(axis_of(data, "y"@, "y"@, c.title) == Ok::<Seq<Seq<char>>, Seq<char>>(
        numbers_written_back(c.ydat),
    ));
}

/// The curves read from the array they were written as are what is left of
/// the curves.
proof fn lemma_curves_round_trip(curves: Seq<SaturationCurveView>, n: int)
    requires
        0 <= n <= curves.len(),
        forall|i: int|
            0 <= i < curves.len() ==> curve_is_finite(#[trigger] curves[i])
                && curves[i].lengths_match(),
    ensures
        curves_of(Seq::new(curves.len(), |i: int| curve_json(curves[i])), n) == Ok::<
            Seq<SaturationCurveView>,
            Seq<char>,
        >(Seq::new(n as nat, |i: int| curve_written_back(curves[i]))),
    decreases n,
{
    let items = Seq::new(curves.len(), |i: int| curve_json(curves[i]));
    if n > 0 {
        lemma_curves_round_trip(curves, n - 1);
        lemma_curve_round_trip(curves[n - 1]);
        assert(items[n - 1] == curve_json(curves[n - 1]));
        assert(Seq::new(n as nat, |i: int| curve_written_back(curves[i])) =~= Seq::new(
            (n - 1) as nat,
            |i: int| curve_written_back(curves[i]),
        ).push(curve_written_back(curves[n - 1])));
    } else {
        assert(Seq::new(0, |i: int| curve_written_back(curves[i])) =~= Seq::<
            SaturationCurveView,
        >::empty());
    }
}

/// What is left of a submission in its document.  A document keeps a
/// submission but for two things: of a step that is not used, with an empty
/// level, it keeps nothing, so that what else was entered for the step is
/// gone; and it keeps each number of a saturation curve as a JSON literal,
/// not as it was spelled.
pub open spec fn written_back(m: SubmissionView) -> SubmissionView {
    SubmissionView {
        saturation_curves: Seq::new(
            m.saturation_curves.len(),
            |i: int| curve_written_back(m.saturation_curves[i]),
        ),
        scheme_transitions: Seq::new(7, |i: int| step_written_back(m.scheme_transitions[i])),
        ..m
    }
}

/// The name of laser systems names these laser systems.
pub proof fn lemma_lasers_round_trip(l: Lasers)
    ensures
        lasers_of_name(l.name_spec()) == Some(l),
{
    reveal_strlit("Ti:Sa");
    reveal_strlit("Dye");
    reveal_strlit("Ti:Sa and Dye");
    assert("Ti:Sa"@.len() == 5 && "Dye"@.len() == 3 && "Ti:Sa and Dye"@.len() == 13);
}

/// The name of a unit names this unit.
pub proof fn lemma_unit_round_trip(u: TransitionUnit)
    ensures
        unit_of_name(unit_name(u)) == u,
{
    reveal_strlit("nm");
    reveal_strlit("cm<sup>-1</sup>");
    assert("nm"@.len() == 2 && "cm<sup>-1</sup>"@.len() == 15);
}

/// What the document of a submission holds under each of its keys.
proof fn lemma_document_fields(m: SubmissionView)
    ensures
        document_tree(m).field("notes"@) == JsonView::Str(m.notes),
        document_tree(m).field("rims_scheme"@) == JsonView::Object(
            seq![("scheme"@, JsonView::Object(scheme_members(m)))],
        ),
        document_tree(m).field("rims_scheme"@).field("scheme"@) == JsonView::Object(
            scheme_members(m),
        ),
        document_tree(m).field("references"@) == JsonView::Array(
            Seq::new(m.references.len(), |i: int| reference_json(m.references[i])),
        ),
        document_tree(m).field("submitted_by"@) == JsonView::Str(m.submitted_by),
        document_tree(m).field("saturation_curves"@) == JsonView::Array(
            Seq::new(m.saturation_curves.len(), |i: int| curve_json(m.saturation_curves[i])),
        ),
{
    reveal_strlit("notes");
    reveal_strlit("rims_scheme");
    reveal_strlit("references");
    reveal_strlit("submitted_by");
    reveal_strlit("saturation_curves");
    reveal_strlit("scheme");
    reveal_with_fuel(lookup_among, 6);
    assert("notes"@.len() == 5 && "rims_scheme"@.len() == 11 && "references"@.len() == 10
        && "submitted_by"@.len() == 12 && "saturation_curves"@.len() == 17 && "scheme"@.len()
        == 6);
    let ms = document_tree(m)->Object_0;
    assert(ms.len() == 5);
    let inner = seq![("scheme"@, JsonView::Object(scheme_members(m)))];
    assert(inner.len() == 1);
    assert(lookup(inner, "scheme"@) == Some(JsonView::Object(scheme_members(m))));
}

/// Reading the document of a submission gives the submission back, as far as
/// a document keeps it: for every submission that has a document and whose
/// saturation curves have data that fit together and hold numbers other than
/// infinities and NaNs, the submission read from its document is
/// [`written_back`] of it.
#[verifier::rlimit(40)]
pub proof fn law_document_round_trip(m: SubmissionView)
    requires
        m.scheme_transitions.len() == 7,
        document_of(m) is Ok,
        forall|i: int|
            0 <= i < m.saturation_curves.len() ==> curve_is_finite(
                #[trigger] m.saturation_curves[i],
            ) && m.saturation_curves[i].lengths_match(),
    ensures
        submission_of(document_of(m)->Ok_0) == Ok::<SubmissionView, Seq<char>>(written_back(m)),
{
    let doc = document_tree(m);
    assert(document_of(m) == Ok::<JsonView, Seq<char>>(doc));
    lemma_document_fields(m);
    let scheme = JsonView::Object(scheme_members(m));
    assert(scheme_of(doc) == Some(scheme));
    lemma_scheme_fields(m);
    law_symbol_round_trip(m.scheme_element);
    lemma_lasers_round_trip(m.scheme_lasers);
    lemma_unit_round_trip(m.scheme_unit);
    lemma_references_round_trip(m.references, m.references.len() as int);
    lemma_curves_round_trip(m.saturation_curves, m.saturation_curves.len() as int);
    assert(m.references.take(m.references.len() as int) =~= m.references);
    assert forall|i: int| 0 <= i < 7 implies step_of(scheme, i) == step_written_back(
        m.scheme_transitions[i],
    ) by {
        lemma_step_round_trip(m, i);
    }
    assert(Seq::new(7, |i: int| step_of(scheme, i)) =~= Seq::new(
        7,
        |i: int| step_written_back(m.scheme_transitions[i]),
    ));
    assert(submission_error(doc).is_none());
    let back = submission_read(doc);
    let want = written_back(m);
    assert(back.scheme_gs == want.scheme_gs);
    assert(back.saturation_curves == want.saturation_curves);
    assert(back.references == want.references);
    assert(back == want);
}

} // verus!
