//! The form: the submission being written, the two editors through which
//! saturation curves and references are entered, and the message of each
//! section.
//!
//! Every action on the form is a method here.  An action that fails leaves a
//! message in its own section and the submission as it was.

use vstd::prelude::*;
use crate::codec::{
    create_json_output, json_output_of, load_config_file, loaded_submission_of,
};
use crate::json::parsed_json;
use crate::model::{
    curve_of_parts, curves_view, empty_submission, is_doi, is_doi_text, references_view,
    ReferenceEntry, ReferenceEntryView, SaturationCurve, SaturationCurveUnit,
    SaturationCurveView, Submission, SubmissionView,
};
use crate::number::{decimal_text, parse_unsigned_with_plus, unsigned_text, unsigned_with_plus_of};
use crate::text::{join2, same_text};

verus! {

/// The state of the form.
#[derive(Debug, Clone, PartialEq)]
pub struct Form {
    /// What has been entered so far.
    pub submission: Submission,
    /// The text that was last handed to [`Form::import`].
    pub rimsschemedrawer_in: String,
    pub sat_tmp_title: String,
    pub sat_tmp_notes: String,
    pub sat_tmp_unit: SaturationCurveUnit,
    pub sat_tmp_fit: bool,
    pub sat_tmp_xdat: String,
    pub sat_tmp_xdat_unc: String,
    pub sat_tmp_ydat: String,
    pub sat_tmp_ydat_unc: String,
    pub reference_id: String,
    pub reference_authors: String,
    pub reference_year: String,
    pub error_reference: String,
    pub error_rimsschemedrawer_in: String,
    pub error_saturation: String,
    pub error_submission: String,
}

pub struct FormView {
    pub submission: SubmissionView,
    pub rimsschemedrawer_in: Seq<char>,
    pub sat_tmp_title: Seq<char>,
    pub sat_tmp_notes: Seq<char>,
    pub sat_tmp_unit: SaturationCurveUnit,
    pub sat_tmp_fit: bool,
    pub sat_tmp_xdat: Seq<char>,
    pub sat_tmp_xdat_unc: Seq<char>,
    pub sat_tmp_ydat: Seq<char>,
    pub sat_tmp_ydat_unc: Seq<char>,
    pub reference_id: Seq<char>,
    pub reference_authors: Seq<char>,
    pub reference_year: Seq<char>,
    pub error_reference: Seq<char>,
    pub error_rimsschemedrawer_in: Seq<char>,
    pub error_saturation: Seq<char>,
    pub error_submission: Seq<char>,
}

impl View for Form {
    type V = FormView;

    open spec fn view(&self) -> FormView {
        FormView {
            submission: self.submission@,
            rimsschemedrawer_in: self.rimsschemedrawer_in@,
            sat_tmp_title: self.sat_tmp_title@,
            sat_tmp_notes: self.sat_tmp_notes@,
            sat_tmp_unit: self.sat_tmp_unit,
            sat_tmp_fit: self.sat_tmp_fit,
            sat_tmp_xdat: self.sat_tmp_xdat@,
            sat_tmp_xdat_unc: self.sat_tmp_xdat_unc@,
            sat_tmp_ydat: self.sat_tmp_ydat@,
            sat_tmp_ydat_unc: self.sat_tmp_ydat_unc@,
            reference_id: self.reference_id@,
            reference_authors: self.reference_authors@,
            reference_year: self.reference_year@,
            error_reference: self.error_reference@,
            error_rimsschemedrawer_in: self.error_rimsschemedrawer_in@,
            error_saturation: self.error_saturation@,
            error_submission: self.error_submission@,
        }
    }
}

/// The form that nothing was entered in.
pub open spec fn empty_form() -> FormView {
    FormView {
        submission: empty_submission(),
        rimsschemedrawer_in: Seq::empty(),
        sat_tmp_title: Seq::empty(),
        sat_tmp_notes: Seq::empty(),
        sat_tmp_unit: SaturationCurveUnit::WCM2,
        sat_tmp_fit: true,
        sat_tmp_xdat: Seq::empty(),
        sat_tmp_xdat_unc: Seq::empty(),
        sat_tmp_ydat: Seq::empty(),
        sat_tmp_ydat_unc: Seq::empty(),
        reference_id: Seq::empty(),
        reference_authors: Seq::empty(),
        reference_year: Seq::empty(),
        error_reference: Seq::empty(),
        error_rimsschemedrawer_in: Seq::empty(),
        error_saturation: Seq::empty(),
        error_submission: Seq::empty(),
    }
}

/// The index of the first of `curves[..n]` with the given title.
pub open spec fn curve_index(curves: Seq<SaturationCurveView>, title: Seq<char>, n: int) -> Option<
    int,
>
    decreases n,
{
    if n <= 0 {
        None
    } else if curve_index(curves, title, n - 1) is Some {
        curve_index(curves, title, n - 1)
    } else if curves[n - 1].title == title {
        Some(n - 1)
    } else {
        None
    }
}

/// The curves after `c` was added: `c` stands in the place of the first curve
/// that has its title, and at the end where no curve has it.
pub open spec fn curves_with(curves: Seq<SaturationCurveView>, c: SaturationCurveView) -> Seq<
    SaturationCurveView,
> {
    match curve_index(curves, c.title, curves.len() as int) {
        Some(i) => curves.update(i, c),
        None => curves.push(c),
    }
}

/// The index of the first of `refs[..n]` with the given identifier.
pub open spec fn reference_index(refs: Seq<ReferenceEntryView>, id: Seq<char>, n: int) -> Option<
    int,
>
    decreases n,
{
    if n <= 0 {
        None
    } else if reference_index(refs, id, n - 1) is Some {
        reference_index(refs, id, n - 1)
    } else if refs[n - 1].id == id {
        Some(n - 1)
    } else {
        None
    }
}

/// The references after `r` was added: `r` stands in the place of the first
/// reference that has its identifier, and at the end where none has it.
pub open spec fn references_with(refs: Seq<ReferenceEntryView>, r: ReferenceEntryView) -> Seq<
    ReferenceEntryView,
> {
    match reference_index(refs, r.id, refs.len() as int) {
        Some(i) => refs.update(i, r),
        None => refs.push(r),
    }
}

/// `s` with the items at `i` and `j` in each other's place.
pub open spec fn swapped<T>(s: Seq<T>, i: int, j: int) -> Seq<T> {
    s.update(i, s[j]).update(j, s[i])
}

/// `s` with item `i` one place nearer the front; `s` itself where `i` is the
/// first place or no place of `s`.
pub open spec fn moved_up<T>(s: Seq<T>, i: int) -> Seq<T> {
    if 0 < i < s.len() {
        swapped(s, i - 1, i)
    } else {
        s
    }
}

/// `s` with item `i` one place nearer the end; `s` itself where `i` is the
/// last place or no place of `s`.
pub open spec fn moved_down<T>(s: Seq<T>, i: int) -> Seq<T> {
    if 0 <= i < s.len() - 1 {
        swapped(s, i, i + 1)
    } else {
        s
    }
}

/// `s` without item `i`; `s` itself where `i` is no place of `s`.
pub open spec fn without<T>(s: Seq<T>, i: int) -> Seq<T> {
    if 0 <= i < s.len() {
        s.remove(i)
    } else {
        s
    }
}

/// What the reference editor gives: a reference, or the message that says
/// what is wrong.  With authors or year left empty the identifier has to look
/// like a DOI and is taken alone; with both given the year has to be a number.
pub open spec fn reference_of_editor(id: Seq<char>, authors: Seq<char>, year: Seq<char>) -> Result<
    ReferenceEntryView,
    Seq<char>,
> {
    if id.len() == 0 {
        Err("Reference is empty"@)
    } else if authors.len() == 0 || year.len() == 0 {
        if is_doi_text(id) {
            Ok(ReferenceEntryView { id, authors: Seq::empty(), year: 0 })
        } else {
            Err(
                "This does not look like a DOI. If that is intentional, please fill in the Author and Year data."@,
            )
        }
    } else {
        match unsigned_with_plus_of(year) {
            Some(y) => if y <= usize::MAX {
                Ok(ReferenceEntryView { id, authors, year: y as usize })
            } else {
                Err("Cannot parse year. Please check it is a number."@)
            },
            None => Err("Cannot parse year. Please check it is a number."@),
        }
    }
}

/// The form after "Add or Update" in the section of the saturation curves.
pub open spec fn after_add_curve(f: FormView) -> FormView {
    if f.sat_tmp_title.len() == 0 {
        FormView { error_saturation: "Title cannot be empty."@, ..f }
    } else {
        match curve_of_parts(
            f.sat_tmp_title,
            f.sat_tmp_notes,
            f.sat_tmp_unit,
            f.sat_tmp_fit,
            f.sat_tmp_xdat,
            f.sat_tmp_xdat_unc,
            f.sat_tmp_ydat,
            f.sat_tmp_ydat_unc,
        ) {
            Err(e) => FormView { error_saturation: e, ..f },
            Ok(c) => FormView {
                submission: SubmissionView {
                    saturation_curves: curves_with(f.submission.saturation_curves, c),
                    ..f.submission
                },
                sat_tmp_title: Seq::empty(),
                sat_tmp_notes: Seq::empty(),
                sat_tmp_fit: true,
                sat_tmp_xdat: Seq::empty(),
                sat_tmp_xdat_unc: Seq::empty(),
                sat_tmp_ydat: Seq::empty(),
                sat_tmp_ydat_unc: Seq::empty(),
                error_saturation: Seq::empty(),
                ..f
            },
        }
    }
}

/// The form after "Add or Update" in the section of the references.
pub open spec fn after_add_reference(f: FormView) -> FormView {
    match reference_of_editor(f.reference_id, f.reference_authors, f.reference_year) {
        Err(e) => FormView { error_reference: e, ..f },
        Ok(r) => FormView {
            submission: SubmissionView {
                references: references_with(f.submission.references, r),
                ..f.submission
            },
            reference_id: Seq::empty(),
            reference_authors: Seq::empty(),
            reference_year: Seq::empty(),
            error_reference: Seq::empty(),
            ..f
        },
    }
}

/// The form after a text was handed in to be read as a document.
pub open spec fn after_import(
    f: FormView,
    text: Seq<char>,
    loaded: Result<SubmissionView, Seq<char>>,
) -> FormView {
    match loaded {
        Ok(m) => FormView {
            submission: m,
            rimsschemedrawer_in: text,
            error_rimsschemedrawer_in: Seq::empty(),
            ..f
        },
        Err(e) => FormView { rimsschemedrawer_in: text, error_rimsschemedrawer_in: e, ..f },
    }
}

/// The text and the form after the submission was asked for as a document.
pub open spec fn after_export(f: FormView, output: Result<Seq<char>, Seq<char>>) -> (
    Seq<char>,
    FormView,
) {
    match output {
        Ok(body) => (body, FormView { error_submission: Seq::empty(), ..f }),
        Err(e) => (
            Seq::empty(),
            FormView { error_submission: "Error creating JSON output: "@ + e, ..f },
        ),
    }
}

fn find_curve(curves: &Vec<SaturationCurve>, title: &str) -> (r: Option<usize>)
    ensures
        match r {
            Some(i) => curve_index(curves_view(curves@), title@, curves@.len() as int) == Some(
                i as int,
            ) && i < curves@.len(),
            None => curve_index(curves_view(curves@), title@, curves@.len() as int).is_none(),
        },
{
    let mut i: usize = 0;
    while i < curves.len()
        invariant
            i <= curves.len(),
            curve_index(curves_view(curves@), title@, i as int).is_none(),
        decreases curves.len() - i,
    {
        assert(curves_view(curves@)[i as int] == curves@[i as int]@);
        if same_text(curves[i].title.as_str(), title) {
            proof {
                lemma_curve_index_stays(curves_view(curves@), title@, i + 1, curves@.len() as int);
            }
            return Some(i);
        }
        i += 1;
    }
    None
}

fn find_reference(refs: &Vec<ReferenceEntry>, id: &str) -> (r: Option<usize>)
    ensures
        match r {
            Some(i) => reference_index(references_view(refs@), id@, refs@.len() as int) == Some(
                i as int,
            ) && i < refs@.len(),
            None => reference_index(references_view(refs@), id@, refs@.len() as int).is_none(),
        },
{
    let mut i: usize = 0;
    while i < refs.len()
        invariant
            i <= refs.len(),
            reference_index(references_view(refs@), id@, i as int).is_none(),
        decreases refs.len() - i,
    {
        assert(references_view(refs@)[i as int] == refs@[i as int]@);
        if same_text(refs[i].id.as_str(), id) {
            proof {
                lemma_reference_index_stays(
                    references_view(refs@),
                    id@,
                    i + 1,
                    refs@.len() as int,
                );
            }
            return Some(i);
        }
        i += 1;
    }
    None
}

pub proof fn lemma_curve_index_stays(
    curves: Seq<SaturationCurveView>,
    title: Seq<char>,
    n: int,
    m: int,
)
    requires
        0 <= n <= m,
        curve_index(curves, title, n) is Some,
    ensures
        curve_index(curves, title, m) == curve_index(curves, title, n),
    decreases m - n,
{
    if n < m {
        lemma_curve_index_stays(curves, title, n, m - 1);
    }
}

pub proof fn lemma_reference_index_stays(
    refs: Seq<ReferenceEntryView>,
    id: Seq<char>,
    n: int,
    m: int,
)
    requires
        0 <= n <= m,
        reference_index(refs, id, n) is Some,
    ensures
        reference_index(refs, id, m) == reference_index(refs, id, n),
    decreases m - n,
{
    if n < m {
        lemma_reference_index_stays(refs, id, n, m - 1);
    }
}

/// Puts `c` among the curves: in the place of the first curve with its
/// title, or at the end.
pub fn put_curve(curves: &mut Vec<SaturationCurve>, c: SaturationCurve)
    ensures
        curves_view(final(curves)@) == curves_with(curves_view(old(curves)@), c@),
{
    match find_curve(curves, c.title.as_str()) {
        Some(i) => {
            curves.set(i, c);
            assert(curves_view(curves@) =~= curves_view(old(curves)@).update(i as int, c@));
        },
        None => {
            curves.push(c);
            assert(curves_view(curves@) =~= curves_view(old(curves)@).push(c@));
        },
    }
}

/// Puts `r` among the references: in the place of the first reference with
/// its identifier, or at the end.
pub fn put_reference(refs: &mut Vec<ReferenceEntry>, r: ReferenceEntry)
    ensures
        references_view(final(refs)@) == references_with(references_view(old(refs)@), r@),
{
    match find_reference(refs, r.id.as_str()) {
        Some(i) => {
            refs.set(i, r);
            assert(references_view(refs@) =~= references_view(old(refs)@).update(i as int, r@));
        },
        None => {
            refs.push(r);
            assert(references_view(refs@) =~= references_view(old(refs)@).push(r@));
        },
    }
}

fn read_reference_editor(id: &str, authors: &str, year: &str) -> (r: Result<
    ReferenceEntry,
    String,
>)
    ensures
        match r {
            Ok(e) => reference_of_editor(id@, authors@, year@) == Ok::<
                ReferenceEntryView,
                Seq<char>,
            >(e@),
            Err(e) => reference_of_editor(id@, authors@, year@) == Err::<
                ReferenceEntryView,
                Seq<char>,
            >(e@),
        },
{
    if id.is_empty() {
        return Err("Reference is empty".to_owned());
    }
    if authors.is_empty() || year.is_empty() {
        if is_doi(id) {
            Ok(ReferenceEntry::new_from_doi(id))
        } else {
            Err(
                "This does not look like a DOI. If that is intentional, please fill in the Author and Year data.".to_owned(),
            )
        }
    } else {
        match parse_unsigned_with_plus(year) {
            Some(y) => {
                if y <= usize::MAX as u64 {
                    Ok(ReferenceEntry::new_from_url(id, authors, y as usize))
                } else {
                    Err("Cannot parse year. Please check it is a number.".to_owned())
                }
            },
            None => Err("Cannot parse year. Please check it is a number.".to_owned()),
        }
    }
}

fn swap_items<T>(v: &mut Vec<T>, i: usize)
    requires
        i + 1 < old(v)@.len(),
    ensures
        final(v)@ == swapped(old(v)@, i as int, i + 1),
{
    let n = v.len();
    let j = i + 1;
    let x = v.remove(i);
    v.insert(j, x);
    assert(v@ =~= swapped(old(v)@, i as int, i + 1));
}

impl Default for Form {
    fn default() -> (r: Form)
        ensures
            r@ == empty_form(),
    {
        Form {
            submission: Submission::default(),
            rimsschemedrawer_in: String::new(),
            sat_tmp_title: String::new(),
            sat_tmp_notes: String::new(),
            sat_tmp_unit: SaturationCurveUnit::WCM2,
            sat_tmp_fit: true,
            sat_tmp_xdat: String::new(),
            sat_tmp_xdat_unc: String::new(),
            sat_tmp_ydat: String::new(),
            sat_tmp_ydat_unc: String::new(),
            reference_id: String::new(),
            reference_authors: String::new(),
            reference_year: String::new(),
            error_reference: String::new(),
            error_rimsschemedrawer_in: String::new(),
            error_saturation: String::new(),
            error_submission: String::new(),
        }
    }
}

impl Form {
    /// "Add or Update" in the section of the saturation curves: makes a curve
    /// of what the editor holds and puts it among the curves, in the place of
    /// the curve with the same title if there is one.  The editor is then
    /// emptied.  Where the editor holds no sound curve, only the message of
    /// the section changes.
    pub fn add_or_update_saturation_curve(&mut self)
        ensures
            final(self)@ == after_add_curve(old(self)@),
    {
        if self.sat_tmp_title.as_str().is_empty() {
            self.error_saturation = "Title cannot be empty.".to_owned();
            return ;
        }
        match SaturationCurve::new_from_parts(
            self.sat_tmp_title.as_str(),
            self.sat_tmp_notes.as_str(),
            &self.sat_tmp_unit,
            self.sat_tmp_fit,
            self.sat_tmp_xdat.as_str(),
            self.sat_tmp_xdat_unc.as_str(),
            self.sat_tmp_ydat.as_str(),
            self.sat_tmp_ydat_unc.as_str(),
        ) {
            Ok(c) => {
                put_curve(&mut self.submission.saturation_curves, c);
                self.sat_tmp_title = String::new();
                self.sat_tmp_notes = String::new();
                self.sat_tmp_fit = true;
                self.sat_tmp_xdat = String::new();
                self.sat_tmp_xdat_unc = String::new();
                self.sat_tmp_ydat = String::new();
                self.sat_tmp_ydat_unc = String::new();
                self.error_saturation = String::new();
            },
            Err(e) => {
                self.error_saturation = e;
            },
        }
    }

    /// "Add or Update" in the section of the references: makes a reference of
    /// what the editor holds and puts it among the references, in the place
    /// of the reference with the same identifier if there is one.  The editor
    /// is then emptied.  Where the editor holds no sound reference, only the
    /// message of the section changes.
    pub fn add_or_update_reference(&mut self)
        ensures
            final(self)@ == after_add_reference(old(self)@),
    {
        match read_reference_editor(
            self.reference_id.as_str(),
            self.reference_authors.as_str(),
            self.reference_year.as_str(),
        ) {
            Ok(r) => {
                put_reference(&mut self.submission.references, r);
                self.reference_id = String::new();
                self.reference_authors = String::new();
                self.reference_year = String::new();
                self.error_reference = String::new();
            },
            Err(e) => {
                self.error_reference = e;
            },
        }
    }

    /// Moves curve `index` one place up.
    pub fn move_saturation_curve_up(&mut self, index: usize)
        ensures
            final(self)@ == (FormView {
                submission: SubmissionView {
                    saturation_curves: moved_up(
                        old(self)@.submission.saturation_curves,
                        index as int,
                    ),
                    ..old(self)@.submission
                },
                ..old(self)@
            }),
    {
        if index > 0 && index < self.submission.saturation_curves.len() {
            swap_items(&mut self.submission.saturation_curves, index - 1);
            assert(curves_view(self.submission.saturation_curves@) =~= moved_up(
                old(self)@.submission.saturation_curves,
                index as int,
            ));
        }
    }

    /// Moves curve `index` one place down.
    pub fn move_saturation_curve_down(&mut self, index: usize)
        ensures
            final(self)@ == (FormView {
                submission: SubmissionView {
                    saturation_curves: moved_down(
                        old(self)@.submission.saturation_curves,
                        index as int,
                    ),
                    ..old(self)@.submission
                },
                ..old(self)@
            }),
    {
        let n = self.submission.saturation_curves.len();
        if n > 0 && index < n - 1 {
            swap_items(&mut self.submission.saturation_curves, index);
            assert(curves_view(self.submission.saturation_curves@) =~= moved_down(
                old(self)@.submission.saturation_curves,
                index as int,
            ));
        }
    }

    /// Takes curve `index` out of the submission.
    pub fn delete_saturation_curve(&mut self, index: usize)
        ensures
            final(self)@ == (FormView {
                submission: SubmissionView {
                    saturation_curves: without(
                        old(self)@.submission.saturation_curves,
                        index as int,
                    ),
                    ..old(self)@.submission
                },
                ..old(self)@
            }),
    {
        if index < self.submission.saturation_curves.len() {
            let _ = self.submission.saturation_curves.remove(index);
            assert(curves_view(self.submission.saturation_curves@) =~= without(
                old(self)@.submission.saturation_curves,
                index as int,
            ));
        }
    }

    /// Puts curve `index` into the editor, to be changed and added again.
    pub fn edit_saturation_curve(&mut self, index: usize)
        ensures
            index >= old(self)@.submission.saturation_curves.len() ==> final(self)@ == old(self)@,
            index < old(self)@.submission.saturation_curves.len() ==> final(self)@ == ({
                let c = old(self)@.submission.saturation_curves[index as int];
                FormView {
                    sat_tmp_title: c.title,
                    sat_tmp_notes: c.notes,
                    sat_tmp_unit: c.units,
                    sat_tmp_fit: c.fit,
                    sat_tmp_xdat: crate::model::shown_list(c.xdat),
                    sat_tmp_xdat_unc: crate::model::shown_optional_list(c.xdat_unc),
                    sat_tmp_ydat: crate::model::shown_list(c.ydat),
                    sat_tmp_ydat_unc: crate::model::shown_optional_list(c.ydat_unc),
                    ..old(self)@
                }
            }),
    {
        if index < self.submission.saturation_curves.len() {
            let c = &self.submission.saturation_curves[index];
            assert(old(self)@.submission.saturation_curves[index as int] == c@);
            let title = c.title.clone();
            let notes = c.notes.clone();
            let units = c.units;
            let fit = c.fit;
            let xdat = c.get_xdat();
            let xdat_unc = c.get_xdat_unc();
            let ydat = c.get_ydat();
            let ydat_unc = c.get_ydat_unc();
            self.sat_tmp_title = title;
            self.sat_tmp_notes = notes;
            self.sat_tmp_unit = units;
            self.sat_tmp_fit = fit;
            self.sat_tmp_xdat = xdat;
            self.sat_tmp_xdat_unc = xdat_unc;
            self.sat_tmp_ydat = ydat;
            self.sat_tmp_ydat_unc = ydat_unc;
        }
    }

    /// Moves reference `index` one place up.
    pub fn move_reference_up(&mut self, index: usize)
        ensures
            final(self)@ == (FormView {
                submission: SubmissionView {
                    references: moved_up(old(self)@.submission.references, index as int),
                    ..old(self)@.submission
                },
                ..old(self)@
            }),
    {
        if index > 0 && index < self.submission.references.len() {
            swap_items(&mut self.submission.references, index - 1);
            assert(references_view(self.submission.references@) =~= moved_up(
                old(self)@.submission.references,
                index as int,
            ));
        }
    }

    /// Moves reference `index` one place down.
    pub fn move_reference_down(&mut self, index: usize)
        ensures
            final(self)@ == (FormView {
                submission: SubmissionView {
                    references: moved_down(old(self)@.submission.references, index as int),
                    ..old(self)@.submission
                },
                ..old(self)@
            }),
    {
        let n = self.submission.references.len();
        if n > 0 && index < n - 1 {
            swap_items(&mut self.submission.references, index);
            assert(references_view(self.submission.references@) =~= moved_down(
                old(self)@.submission.references,
                index as int,
            ));
        }
    }

    /// Takes reference `index` out of the submission.
    pub fn delete_reference(&mut self, index: usize)
        ensures
            final(self)@ == (FormView {
                submission: SubmissionView {
                    references: without(old(self)@.submission.references, index as int),
                    ..old(self)@.submission
                },
                ..old(self)@
            }),
    {
        if index < self.submission.references.len() {
            let _ = self.submission.references.remove(index);
            assert(references_view(self.submission.references@) =~= without(
                old(self)@.submission.references,
                index as int,
            ));
        }
    }

    /// Puts reference `index` into the editor, to be changed and added again.
    /// The year 0, which stands for no year, is shown as an empty field.
    pub fn edit_reference(&mut self, index: usize)
        ensures
            index >= old(self)@.submission.references.len() ==> final(self)@ == old(self)@,
            index < old(self)@.submission.references.len() ==> final(self)@ == ({
                let r = old(self)@.submission.references[index as int];
                FormView {
                    reference_id: r.id,
                    reference_authors: r.authors,
                    reference_year: if r.year == 0 {
                        Seq::empty()
                    } else {
                        decimal_text(r.year as nat)
                    },
                    ..old(self)@
                }
            }),
    {
        if index < self.submission.references.len() {
            let r = &self.submission.references[index];
            assert(old(self)@.submission.references[index as int] == r@);
            let id = r.id.clone();
            let authors = r.authors.clone();
            let year = if r.year == 0 {
                String::new()
            } else {
                unsigned_text(r.year as u64)
            };
            self.reference_id = id;
            self.reference_authors = authors;
            self.reference_year = year;
        }
    }

    /// "Clear all": the form is as if nothing had been entered.
    pub fn clear_all(&mut self)
        ensures
            final(self)@ == empty_form(),
    {
        *self = Form::default();
    }

    /// Reads `text` as a document.  Where it holds a submission, that
    /// submission takes the place of the one in the form, whole.  Where it
    /// does not, the message says why, and the submission in the form stays
    /// as it was.
    pub fn import(&mut self, text: String)
        ensures
            final(self)@ == after_import(
                old(self)@,
                text@,
                loaded_submission_of(parsed_json(text@)),
            ),
    {
        match load_config_file(text.as_str()) {
            Ok(m) => {
                self.submission = m;
                self.error_rimsschemedrawer_in = String::new();
            },
            Err(e) => {
                self.error_rimsschemedrawer_in = e;
            },
        }
        self.rimsschemedrawer_in = text;
    }

    /// The submission as JSON text, to be handed in or saved.  Where it cannot
    /// be written, the text is empty and the message of the section says why.
    pub fn export(&mut self) -> (body: String)
        ensures
            (body@, final(self)@) == after_export(
                old(self)@,
                json_output_of(old(self)@.submission),
            ),
    {
        match create_json_output(&self.submission) {
            Ok(body) => {
                self.error_submission = String::new();
                body
            },
            Err(e) => {
                self.error_submission = join2("Error creating JSON output: ", e.as_str());
                String::new()
            },
        }
    }
}

/// What [`curve_index`] finds is the first curve with the title.
pub proof fn lemma_curve_index(curves: Seq<SaturationCurveView>, title: Seq<char>, n: int)
    requires
        0 <= n <= curves.len(),
    ensures
        match curve_index(curves, title, n) {
            Some(i) => 0 <= i < n && curves[i].title == title && forall|j: int|
                0 <= j < i ==> (#[trigger] curves[j]).title != title,
            None => forall|j: int| 0 <= j < n ==> (#[trigger] curves[j]).title != title,
        },
    decreases n,
{
    if n > 0 {
        lemma_curve_index(curves, title, n - 1);
    }
}

/// What [`reference_index`] finds is the first reference with the identifier.
pub proof fn lemma_reference_index(refs: Seq<ReferenceEntryView>, id: Seq<char>, n: int)
    requires
        0 <= n <= refs.len(),
    ensures
        match reference_index(refs, id, n) {
            Some(i) => 0 <= i < n && refs[i].id == id && forall|j: int|
                0 <= j < i ==> (#[trigger] refs[j]).id != id,
            None => forall|j: int| 0 <= j < n ==> (#[trigger] refs[j]).id != id,
        },
    decreases n,
{
    if n > 0 {
        lemma_reference_index(refs, id, n - 1);
    }
}

/// Adding a curve under a title that is there already puts it in the place of
/// the first curve with that title: there are as many curves as before, that
/// place holds the new curve, and every other place holds what it held.
pub proof fn law_curve_with_known_title_replaces(
    curves: Seq<SaturationCurveView>,
    c: SaturationCurveView,
    at: int,
)
    requires
        0 <= at < curves.len(),
        curves[at].title == c.title,
        forall|j: int| 0 <= j < at ==> (#[trigger] curves[j]).title != c.title,
    ensures
        curves_with(curves, c).len() == curves.len(),
        curves_with(curves, c)[at] == c,
        forall|j: int|
            0 <= j < curves.len() && j != at ==> #[trigger] curves_with(curves, c)[j] == curves[j],
{
    lemma_curve_index(curves, c.title, curves.len() as int);
}

/// Adding a curve under a title that is not there yet puts it at the end.
pub proof fn law_curve_with_new_title_is_appended(
    curves: Seq<SaturationCurveView>,
    c: SaturationCurveView,
)
    requires
        forall|j: int| 0 <= j < curves.len() ==> (#[trigger] curves[j]).title != c.title,
    ensures
        curves_with(curves, c) == curves.push(c),
{
    lemma_curve_index(curves, c.title, curves.len() as int);
}

/// Adding a reference under an identifier that is there already puts it in
/// the place of the first reference with that identifier, and leaves every
/// other place as it was.
pub proof fn law_reference_with_known_id_replaces(
    refs: Seq<ReferenceEntryView>,
    r: ReferenceEntryView,
    at: int,
)
    requires
        0 <= at < refs.len(),
        refs[at].id == r.id,
        forall|j: int| 0 <= j < at ==> (#[trigger] refs[j]).id != r.id,
    ensures
        references_with(refs, r).len() == refs.len(),
        references_with(refs, r)[at] == r,
        forall|j: int|
            0 <= j < refs.len() && j != at ==> #[trigger] references_with(refs, r)[j] == refs[j],
{
    lemma_reference_index(refs, r.id, refs.len() as int);
}

/// Each section keeps to itself: "Add or Update" for a saturation curve
/// leaves the references, the scheme and the messages of the other sections
/// as they were, and "Add or Update" for a reference leaves the saturation
/// curves, the scheme and the messages of the other sections as they were.
pub proof fn law_sections_keep_to_themselves(f: FormView)
    ensures
        after_add_curve(f).submission == (SubmissionView {
            saturation_curves: after_add_curve(f).submission.saturation_curves,
            ..f.submission
        }),
        after_add_curve(f).error_reference == f.error_reference,
        after_add_curve(f).error_rimsschemedrawer_in == f.error_rimsschemedrawer_in,
        after_add_curve(f).error_submission == f.error_submission,
        after_add_reference(f).submission == (SubmissionView {
            references: after_add_reference(f).submission.references,
            ..f.submission
        }),
        after_add_reference(f).error_saturation == f.error_saturation,
        after_add_reference(f).error_rimsschemedrawer_in == f.error_rimsschemedrawer_in,
        after_add_reference(f).error_submission == f.error_submission,
{
}

/// An action that fails changes nothing but the message of its section: the
/// submission and the editors are as they were.
pub proof fn law_failure_leaves_the_submission(f: FormView, text: Seq<char>, e: Seq<char>)
    ensures
        after_add_curve(f).error_saturation.len() > 0 ==> after_add_curve(f) == (FormView {
            error_saturation: after_add_curve(f).error_saturation,
            ..f
        }),
        after_add_reference(f).error_reference.len() > 0 ==> after_add_reference(f) == (FormView {
            error_reference: after_add_reference(f).error_reference,
            ..f
        }),
        after_import(f, text, Err(e)).submission == f.submission,
        after_export(f, Err(e)).1.submission == f.submission,
{
}

} // verus!
