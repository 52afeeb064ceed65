//! The submission and its parts, as the form holds them.

use vstd::prelude::*;
use crate::elements::Elements;
use crate::number::{
    data_string_to_vec_f64, is_delimiter, is_float_text, is_listable, is_number,
    law_shown_number_is_read_again, lemma_tokens_of_a_token, lemma_tokens_of_both,
    lemma_tokens_of_the_end, numbers_of, same_decimal, shown_number, shown_text, tokens,
    tokens_from,
};
use crate::text::{copy_texts, join2, text_result, texts_view};

verus! {

/// The ground state of a scheme.
#[derive(Debug, Clone, PartialEq)]
pub struct GroundState {
    pub level: String,
    pub term_symbol: String,
}

pub struct GroundStateView {
    pub level: Seq<char>,
    pub term_symbol: Seq<char>,
}

impl View for GroundState {
    type V = GroundStateView;

    open spec fn view(&self) -> GroundStateView {
        GroundStateView { level: self.level@, term_symbol: self.term_symbol@ }
    }
}

/// What the level of a ground state is accepted as: the level itself where
/// it is a number, else the message that says what is wrong with it.
pub open spec fn checked_ground_level(level: Seq<char>) -> Result<Seq<char>, Seq<char>> {
    if level.len() == 0 {
        Err("Ground state level is empty."@)
    } else if !is_float_text(level) {
        Err("Ground state level is not a number."@)
    } else {
        Ok(level)
    }
}

/// What an optional numeric field is accepted as: empty stays empty, a number
/// stays as it is, and anything else gives `message`.
pub open spec fn checked_optional_number(field: Seq<char>, message: Seq<char>) -> Result<
    Seq<char>,
    Seq<char>,
> {
    if field.len() == 0 || is_float_text(field) {
        Ok(field)
    } else {
        Err(message)
    }
}

impl GroundState {
    /// The level, checked: it must not be empty and must be a number.
    pub fn get_level(&self) -> (r: Result<String, String>)
        ensures
            text_result(r) == checked_ground_level(self.level@),
    {
        if self.level.as_str().is_empty() {
            return Err("Ground state level is empty.".to_owned());
        }
        if !is_number(self.level.as_str()) {
            return Err("Ground state level is not a number.".to_owned());
        }
        Ok(self.level.clone())
    }
}

/// The laser systems that a scheme was made with.
#[derive(Debug, Clone, Copy, PartialEq, Eq, Structural)]
pub enum Lasers {
    TiSa,
    Dye,
    Both,
}

impl Lasers {
    /// The name of the laser systems, as shown and as written to a document.
    pub open spec fn name_spec(self) -> Seq<char> {
        match self {
            Lasers::TiSa => "Ti:Sa"@,
            Lasers::Dye => "Dye"@,
            Lasers::Both => "Ti:Sa and Dye"@,
        }
    }

    /// The name of the laser systems, as shown and as written to a document.
    pub fn name(&self) -> (r: &'static str)
        ensures
            r@ == self.name_spec(),
    {
        match self {
            Lasers::TiSa => "Ti:Sa",
            Lasers::Dye => "Dye",
            Lasers::Both => "Ti:Sa and Dye",
        }
    }
}

/// The unit in which the levels of a scheme are given.
#[derive(Debug, Clone, Copy, PartialEq, Eq, Structural)]
pub enum TransitionUnit {
    /// Wavelength in nanometres.
    NM,
    /// Wavenumber in 1/cm.
    CM1,
}

impl TransitionUnit {
    /// The unit as shown on the form.
    pub open spec fn label_spec(self) -> Seq<char> {
        match self {
            TransitionUnit::NM => "nm"@,
            TransitionUnit::CM1 => "cm\u{af}\u{b9}"@,
        }
    }

    /// The unit as shown on the form.
    pub fn label(&self) -> (r: &'static str)
        ensures
            r@ == self.label_spec(),
    {
        match self {
            TransitionUnit::NM => "nm",
            TransitionUnit::CM1 => "cm\u{af}\u{b9}",
        }
    }
}

/// The unit of the x axis of a saturation curve.
#[derive(Debug, Clone, Copy, PartialEq, Eq, Structural)]
pub enum SaturationCurveUnit {
    /// Irradiance in W/cm².
    WCM2,
    /// Power in W.
    W,
}

impl SaturationCurveUnit {
    /// The unit as shown on the form.
    pub open spec fn label_spec(self) -> Seq<char> {
        match self {
            SaturationCurveUnit::WCM2 => "W/cm\u{b2}"@,
            SaturationCurveUnit::W => "W"@,
        }
    }

    /// The unit as shown on the form.
    pub fn label(&self) -> (r: &'static str)
        ensures
            r@ == self.label_spec(),
    {
        match self {
            SaturationCurveUnit::WCM2 => "W/cm\u{b2}",
            SaturationCurveUnit::W => "W",
        }
    }
}

/// One step of a scheme.
#[derive(Debug, Clone, PartialEq)]
pub struct Transition {
    pub level: String,
    pub term_symbol: String,
    pub transition_strength: String,
    pub low_lying: bool,
    pub forbidden: bool,
}

pub struct TransitionView {
    pub level: Seq<char>,
    pub term_symbol: Seq<char>,
    pub transition_strength: Seq<char>,
    pub low_lying: bool,
    pub forbidden: bool,
}

impl View for Transition {
    type V = TransitionView;

    open spec fn view(&self) -> TransitionView {
        TransitionView {
            level: self.level@,
            term_symbol: self.term_symbol@,
            transition_strength: self.transition_strength@,
            low_lying: self.low_lying,
            forbidden: self.forbidden,
        }
    }
}

/// The step that nothing was entered for.
pub open spec fn empty_transition() -> TransitionView {
    TransitionView {
        level: Seq::empty(),
        term_symbol: Seq::empty(),
        transition_strength: Seq::empty(),
        low_lying: false,
        forbidden: false,
    }
}

impl Transition {
    /// A step with empty fields and both flags off.
    pub fn new_empty() -> (r: Transition)
        ensures
            r@ == empty_transition(),
    {
        Transition {
            level: String::new(),
            term_symbol: String::new(),
            transition_strength: String::new(),
            low_lying: false,
            forbidden: false,
        }
    }

    /// The level, checked: empty, which stands for a step that is not used, or
    /// a number.
    pub fn get_level(&self) -> (r: Result<String, String>)
        ensures
            text_result(r) == checked_optional_number(
                self.level@,
                "Transition level is not a number."@,
            ),
    {
        if self.level.as_str().is_empty() {
            assert(self.level@ =~= Seq::<char>::empty());
            return Ok(String::new());
        }
        if !is_number(self.level.as_str()) {
            return Err("Transition level is not a number.".to_owned());
        }
        Ok(self.level.clone())
    }

    /// The transition strength, checked: empty, which stands for a strength
    /// that is not given, or a number.
    pub fn get_transition_strength(&self) -> (r: Result<String, String>)
        ensures
            text_result(r) == checked_optional_number(
                self.transition_strength@,
                "Transition strength is not a number."@,
            ),
    {
        if self.transition_strength.as_str().is_empty() {
            assert(self.transition_strength@ =~= Seq::<char>::empty());
            return Ok(String::new());
        }
        if !is_number(self.transition_strength.as_str()) {
            return Err("Transition strength is not a number.".to_owned());
        }
        Ok(self.transition_strength.clone())
    }
}

/// How often `c` occurs in `s[..n]`.
pub open spec fn count_of(s: Seq<char>, c: char, n: int) -> nat
    decreases n,
{
    if n <= 0 {
        0
    } else if s[n - 1] == c {
        count_of(s, c, n - 1) + 1
    } else {
        count_of(s, c, n - 1)
    }
}

/// Whether a text has the shape of a DOI: it holds exactly one slash.
pub open spec fn is_doi_text(s: Seq<char>) -> bool {
    count_of(s, '/', s.len() as int) == 1
}

/// Whether `inp` looks like a DOI rather than a URL: it holds exactly one
/// slash.
pub fn is_doi(inp: &str) -> (r: bool)
    ensures
        r == is_doi_text(inp@),
{
    let v = crate::text::chars_of(inp);
    let mut slashes: usize = 0;
    let mut i: usize = 0;
    while i < v.len()
        invariant
            i <= v.len(),
            slashes == count_of(v@, '/', i as int),
            slashes <= i,
        decreases v.len() - i,
    {
        if v[i] == '/' {
            slashes += 1;
        }
        i += 1;
    }
    slashes == 1
}

/// A reference to the literature: a DOI alone, or a URL with authors and year.
#[derive(Debug, Clone, PartialEq)]
pub struct ReferenceEntry {
    pub id: String,
    pub authors: String,
    pub year: usize,
}

pub struct ReferenceEntryView {
    pub id: Seq<char>,
    pub authors: Seq<char>,
    pub year: usize,
}

impl View for ReferenceEntry {
    type V = ReferenceEntryView;

    open spec fn view(&self) -> ReferenceEntryView {
        ReferenceEntryView { id: self.id@, authors: self.authors@, year: self.year }
    }
}

impl ReferenceEntryView {
    /// Whether the entry is a bare DOI: it names no authors and no year.
    pub open spec fn is_doi_entry(self) -> bool {
        self.authors.len() == 0 && self.year == 0
    }

    /// The address under which the reference is found.
    pub open spec fn url(self) -> Seq<char> {
        if self.is_doi_entry() {
            "https://doi.org/"@ + self.id
        } else {
            self.id
        }
    }
}

impl ReferenceEntry {
    /// A reference given by its DOI alone.
    pub fn new_from_doi(doi: &str) -> (r: ReferenceEntry)
        ensures
            r@ == (ReferenceEntryView { id: doi@, authors: Seq::empty(), year: 0 }),
    {
        ReferenceEntry { id: doi.to_owned(), authors: String::new(), year: 0 }
    }

    /// A reference given by a URL, with the authors and the year to show.
    pub fn new_from_url(url: &str, authors: &str, year: usize) -> (r: ReferenceEntry)
        ensures
            r@ == (ReferenceEntryView { id: url@, authors: authors@, year: year }),
    {
        ReferenceEntry { id: url.to_owned(), authors: authors.to_owned(), year }
    }

    /// The address under which the reference is found: `https://doi.org/`
    /// and the DOI for a bare DOI, else the URL as it was entered.
    pub fn get_url(&self) -> (r: String)
        ensures
            r@ == self@.url(),
    {
        if self.authors.as_str().is_empty() && self.year == 0 {
            join2("https://doi.org/", self.id.as_str())
        } else {
            self.id.clone()
        }
    }

    /// A copy of the reference.
    pub fn copy(&self) -> (r: ReferenceEntry)
        ensures
            r@ == self@,
    {
        ReferenceEntry { id: self.id.clone(), authors: self.authors.clone(), year: self.year }
    }
}

/// A measured saturation curve.  Each number is kept as the text that it was
/// given as.
#[derive(Debug, Clone, PartialEq)]
pub struct SaturationCurve {
    pub title: String,
    pub notes: String,
    pub units: SaturationCurveUnit,
    pub fit: bool,
    pub xdat: Vec<String>,
    pub xdat_unc: Option<Vec<String>>,
    pub ydat: Vec<String>,
    pub ydat_unc: Option<Vec<String>>,
}

pub struct SaturationCurveView {
    pub title: Seq<char>,
    pub notes: Seq<char>,
    pub units: SaturationCurveUnit,
    pub fit: bool,
    pub xdat: Seq<Seq<char>>,
    pub xdat_unc: Option<Seq<Seq<char>>>,
    pub ydat: Seq<Seq<char>>,
    pub ydat_unc: Option<Seq<Seq<char>>>,
}

/// The view of an optional list of texts.
pub open spec fn optional_texts_view(v: Option<Vec<String>>) -> Option<Seq<Seq<char>>> {
    match v {
        Some(list) => Some(texts_view(list@)),
        None => None,
    }
}

impl View for SaturationCurve {
    type V = SaturationCurveView;

    open spec fn view(&self) -> SaturationCurveView {
        SaturationCurveView {
            title: self.title@,
            notes: self.notes@,
            units: self.units,
            fit: self.fit,
            xdat: texts_view(self.xdat@),
            xdat_unc: optional_texts_view(self.xdat_unc),
            ydat: texts_view(self.ydat@),
            ydat_unc: optional_texts_view(self.ydat_unc),
        }
    }
}

impl SaturationCurveView {
    /// Whether the data fit together: as many y values as x values, and as
    /// many uncertainties, where they are given, as values.
    pub open spec fn lengths_match(self) -> bool {
        &&& self.xdat.len() == self.ydat.len()
        &&& (self.xdat_unc matches Some(u) ==> u.len() == self.xdat.len())
        &&& (self.ydat_unc matches Some(u) ==> u.len() == self.ydat.len())
    }
}

/// What an uncertainty field gives: nothing where it is empty, else its
/// numbers or the message that names the field.
pub open spec fn uncertainties_of(data: Seq<char>, name: Seq<char>) -> Result<
    Option<Seq<Seq<char>>>,
    Seq<char>,
> {
    if data.len() == 0 {
        Ok(None)
    } else {
        match numbers_of(data, name) {
            Ok(v) => Ok(Some(v)),
            Err(e) => Err(e),
        }
    }
}

/// What the four data fields of the form give together: a curve, or the
/// message for the first thing found wrong.  The fields are looked at in this
/// order: x is given at all; x holds numbers; y holds numbers; x and y are
/// equally long; the x uncertainties, then the y uncertainties, hold numbers
/// and are as many as the values.
pub open spec fn curve_of_parts(
    title: Seq<char>,
    notes: Seq<char>,
    units: SaturationCurveUnit,
    fit: bool,
    xdat: Seq<char>,
    xunc: Seq<char>,
    ydat: Seq<char>,
    yunc: Seq<char>,
) -> Result<SaturationCurveView, Seq<char>> {
    if xdat.len() == 0 {
        Err("Please enter some data."@)
    } else if numbers_of(xdat, "x"@) is Err {
        Err(numbers_of(xdat, "x"@)->Err_0)
    } else if numbers_of(ydat, "y"@) is Err {
        Err(numbers_of(ydat, "y"@)->Err_0)
    } else if numbers_of(xdat, "x"@)->Ok_0.len() != numbers_of(ydat, "y"@)->Ok_0.len() {
        Err("X and Y data lengths do not match."@)
    } else if uncertainties_of(xunc, "x uncertainty"@) is Err {
        Err(uncertainties_of(xunc, "x uncertainty"@)->Err_0)
    } else if uncertainties_of(xunc, "x uncertainty"@)->Ok_0 matches Some(u) && u.len()
        != numbers_of(xdat, "x"@)->Ok_0.len() {
        Err("Uncertainty x data length does not match the x data length."@)
    } else if uncertainties_of(yunc, "y uncertainty"@) is Err {
        Err(uncertainties_of(yunc, "y uncertainty"@)->Err_0)
    } else if uncertainties_of(yunc, "y uncertainty"@)->Ok_0 matches Some(u) && u.len()
        != numbers_of(ydat, "y"@)->Ok_0.len() {
        Err("Uncertainty y data length does not match the y data length."@)
    } else {
        Ok(
            SaturationCurveView {
                title,
                notes,
                units,
                fit,
                xdat: numbers_of(xdat, "x"@)->Ok_0,
                xdat_unc: uncertainties_of(xunc, "x uncertainty"@)->Ok_0,
                ydat: numbers_of(ydat, "y"@)->Ok_0,
                ydat_unc: uncertainties_of(yunc, "y uncertainty"@)->Ok_0,
            },
        )
    }
}

/// The view of a curve or an error message.
pub open spec fn curve_result(r: Result<SaturationCurve, String>) -> Result<
    SaturationCurveView,
    Seq<char>,
> {
    match r {
        Ok(c) => Ok(c@),
        Err(e) => Err(e@),
    }
}

/// The texts of `v`, with `", "` between each two.
pub open spec fn comma_joined(v: Seq<Seq<char>>) -> Seq<char>
    decreases v.len(),
{
    if v.len() == 0 {
        Seq::empty()
    } else if v.len() == 1 {
        v[0]
    } else {
        comma_joined(v.drop_last()) + ", "@ + v.last()
    }
}

/// The numbers of a list as they are shown.
pub open spec fn shown_numbers(v: Seq<Seq<char>>) -> Seq<Seq<char>> {
    Seq::new(v.len(), |i: int| shown_number(v[i]))
}

/// The text that shows a list of numbers: each number as it is shown, with
/// `", "` between each two.
pub open spec fn shown_list(v: Seq<Seq<char>>) -> Seq<char> {
    comma_joined(shown_numbers(v))
}

/// The text that shows a list of uncertainties; empty for none.
pub open spec fn shown_optional_list(v: Option<Seq<Seq<char>>>) -> Seq<char> {
    match v {
        Some(u) => shown_list(u),
        None => Seq::empty(),
    }
}

fn show_list(v: &Vec<String>) -> (r: String)
    ensures
        r@ == shown_list(texts_view(v@)),
{
    let mut out = String::new();
    let mut i: usize = 0;
    let ghost all = shown_numbers(texts_view(v@));
    while i < v.len()
        invariant
            i <= v.len(),
            all == shown_numbers(texts_view(v@)),
            out@ == comma_joined(all.take(i as int)),
        decreases v.len() - i,
    {
        let shown = shown_text(v[i].as_str());
        proof {
            assert(all.take(i + 1).drop_last() == all.take(i as int));
            assert(all.take(i + 1).last() == shown@);
        }
        if i > 0 {
            out.append(", ");
        } else {
            assert(out@ + shown@ =~= shown@);
        }
        out.append(shown.as_str());
        i += 1;
    }
    assert(all.take(i as int) == all);
    out
}

fn read_uncertainties(data: &str, name: &str) -> (r: Result<Option<Vec<String>>, String>)
    ensures
        match r {
            Ok(v) => uncertainties_of(data@, name@) == Ok::<Option<Seq<Seq<char>>>, Seq<char>>(
                optional_texts_view(v),
            ),
            Err(e) => uncertainties_of(data@, name@) == Err::<Option<Seq<Seq<char>>>, Seq<char>>(
                e@,
            ),
        },
{
    if data.is_empty() {
        Ok(None)
    } else {
        match data_string_to_vec_f64(data, name) {
            Ok(v) => Ok(Some(v)),
            Err(e) => Err(e),
        }
    }
}

fn copy_optional_texts(v: &Option<Vec<String>>) -> (r: Option<Vec<String>>)
    ensures
        optional_texts_view(r) == optional_texts_view(*v),
{
    match v {
        Some(list) => Some(copy_texts(list)),
        None => None,
    }
}

impl SaturationCurve {
    /// Makes a curve from the fields of the form, or says what is wrong with
    /// them.
    pub fn new_from_parts(
        title: &str,
        notes: &str,
        units: &SaturationCurveUnit,
        fit: bool,
        xdat: &str,
        xunc: &str,
        ydat: &str,
        yunc: &str,
    ) -> (r: Result<SaturationCurve, String>)
        ensures
            curve_result(r) == curve_of_parts(
                title@,
                notes@,
                *units,
                fit,
                xdat@,
                xunc@,
                ydat@,
                yunc@,
            ),
            r matches Ok(c) ==> c@.lengths_match(),
    {
        if xdat.is_empty() {
            return Err("Please enter some data.".to_owned());
        }
        let x = match data_string_to_vec_f64(xdat, "x") {
            Ok(v) => v,
            Err(e) => { return Err(e); },
        };
        let y = match data_string_to_vec_f64(ydat, "y") {
            Ok(v) => v,
            Err(e) => { return Err(e); },
        };
        if x.len() != y.len() {
            return Err("X and Y data lengths do not match.".to_owned());
        }
        let x_unc = match read_uncertainties(xunc, "x uncertainty") {
            Ok(v) => v,
            Err(e) => { return Err(e); },
        };
        match &x_unc {
            Some(u) => {
                if u.len() != x.len() {
                    return Err(
                        "Uncertainty x data length does not match the x data length.".to_owned(),
                    );
                }
            },
            None => {},
        }
        let y_unc = match read_uncertainties(yunc, "y uncertainty") {
            Ok(v) => v,
            Err(e) => { return Err(e); },
        };
        match &y_unc {
            Some(u) => {
                if u.len() != y.len() {
                    return Err(
                        "Uncertainty y data length does not match the y data length.".to_owned(),
                    );
                }
            },
            None => {},
        }
        Ok(
            SaturationCurve {
                title: title.to_owned(),
                notes: notes.to_owned(),
                units: *units,
                fit,
                xdat: x,
                xdat_unc: x_unc,
                ydat: y,
                ydat_unc: y_unc,
            },
        )
    }

    /// The x values as the editor shows them: with `", "` between them, and
    /// each without a negative exponent, which a list cannot hold.
    pub fn get_xdat(&self) -> (r: String)
        ensures
            r@ == shown_list(self@.xdat),
    {
        show_list(&self.xdat)
    }

    /// The uncertainties of the x values as the editor shows them; empty
    /// where none are given.
    pub fn get_xdat_unc(&self) -> (r: String)
        ensures
            r@ == shown_optional_list(self@.xdat_unc),
    {
        match &self.xdat_unc {
            Some(u) => show_list(u),
            None => String::new(),
        }
    }

    /// The y values as the editor shows them: with `", "` between them, and
    /// each without a negative exponent, which a list cannot hold.
    pub fn get_ydat(&self) -> (r: String)
        ensures
            r@ == shown_list(self@.ydat),
    {
        show_list(&self.ydat)
    }

    /// The uncertainties of the y values as the editor shows them; empty
    /// where none are given.
    pub fn get_ydat_unc(&self) -> (r: String)
        ensures
            r@ == shown_optional_list(self@.ydat_unc),
    {
        match &self.ydat_unc {
            Some(u) => show_list(u),
            None => String::new(),
        }
    }

    /// A copy of the curve.
    pub fn copy(&self) -> (r: SaturationCurve)
        ensures
            r@ == self@,
    {
        SaturationCurve {
            title: self.title.clone(),
            notes: self.notes.clone(),
            units: self.units,
            fit: self.fit,
            xdat: copy_texts(&self.xdat),
            xdat_unc: copy_optional_texts(&self.xdat_unc),
            ydat: copy_texts(&self.ydat),
            ydat_unc: copy_optional_texts(&self.ydat_unc),
        }
    }
}

/// How many steps a scheme has room for.
pub const STEP_COUNT: usize = 7;

/// Everything that is handed in: the scheme with its element, ground state,
/// steps, unit and lasers, the notes, the references, the saturation curves
/// and the name of the person who hands it in.
#[derive(Debug, Clone, PartialEq)]
pub struct Submission {
    pub notes: String,
    pub references: Vec<ReferenceEntry>,
    pub saturation_curves: Vec<SaturationCurve>,
    pub scheme_element: Elements,
    pub scheme_gs: GroundState,
    pub scheme_ip_term_symbol: String,
    pub scheme_lasers: Lasers,
    pub scheme_transitions: [Transition; 7],
    pub scheme_last_step_to_ip: bool,
    pub scheme_unit: TransitionUnit,
    pub submitted_by: String,
}

pub struct SubmissionView {
    pub notes: Seq<char>,
    pub references: Seq<ReferenceEntryView>,
    pub saturation_curves: Seq<SaturationCurveView>,
    pub scheme_element: Elements,
    pub scheme_gs: GroundStateView,
    pub scheme_ip_term_symbol: Seq<char>,
    pub scheme_lasers: Lasers,
    pub scheme_transitions: Seq<TransitionView>,
    pub scheme_last_step_to_ip: bool,
    pub scheme_unit: TransitionUnit,
    pub submitted_by: Seq<char>,
}

/// The views of a list of references.
pub open spec fn references_view(v: Seq<ReferenceEntry>) -> Seq<ReferenceEntryView> {
    Seq::new(v.len(), |i: int| v[i]@)
}

/// The views of a list of saturation curves.
pub open spec fn curves_view(v: Seq<SaturationCurve>) -> Seq<SaturationCurveView> {
    Seq::new(v.len(), |i: int| v[i]@)
}

/// The views of a list of steps.
pub open spec fn transitions_view(v: Seq<Transition>) -> Seq<TransitionView> {
    Seq::new(v.len(), |i: int| v[i]@)
}

impl View for Submission {
    type V = SubmissionView;

    open spec fn view(&self) -> SubmissionView {
        SubmissionView {
            notes: self.notes@,
            references: references_view(self.references@),
            saturation_curves: curves_view(self.saturation_curves@),
            scheme_element: self.scheme_element,
            scheme_gs: self.scheme_gs@,
            scheme_ip_term_symbol: self.scheme_ip_term_symbol@,
            scheme_lasers: self.scheme_lasers,
            scheme_transitions: transitions_view(self.scheme_transitions@),
            scheme_last_step_to_ip: self.scheme_last_step_to_ip,
            scheme_unit: self.scheme_unit,
            submitted_by: self.submitted_by@,
        }
    }
}

/// The submission of a form that nothing was entered in: hydrogen, ground
/// state level `0`, seven unused steps, wavenumbers, Ti:Sa lasers, and
/// everything else empty.
pub open spec fn empty_submission() -> SubmissionView {
    SubmissionView {
        notes: Seq::empty(),
        references: Seq::empty(),
        saturation_curves: Seq::empty(),
        scheme_element: Elements::H,
        scheme_gs: GroundStateView { level: "0"@, term_symbol: Seq::empty() },
        scheme_ip_term_symbol: Seq::empty(),
        scheme_lasers: Lasers::TiSa,
        scheme_transitions: Seq::new(7, |i: int| empty_transition()),
        scheme_last_step_to_ip: false,
        scheme_unit: TransitionUnit::CM1,
        submitted_by: Seq::empty(),
    }
}

pub proof fn lemma_references_view_push(v: Seq<ReferenceEntry>, e: ReferenceEntry)
    ensures
        references_view(v.push(e)) == references_view(v).push(e@),
{
    assert(references_view(v.push(e)) =~= references_view(v).push(e@));
}

pub proof fn lemma_curves_view_push(v: Seq<SaturationCurve>, e: SaturationCurve)
    ensures
        curves_view(v.push(e)) == curves_view(v).push(e@),
{
    assert(curves_view(v.push(e)) =~= curves_view(v).push(e@));
}

/// Seven unused steps.
pub fn empty_transitions() -> (r: [Transition; 7])
    ensures
        transitions_view(r@) == Seq::new(7, |i: int| empty_transition()),
{
    let r = [
        Transition::new_empty(),
        Transition::new_empty(),
        Transition::new_empty(),
        Transition::new_empty(),
        Transition::new_empty(),
        Transition::new_empty(),
        Transition::new_empty(),
    ];
    assert(transitions_view(r@) =~= Seq::new(7, |i: int| empty_transition()));
    r
}

impl Default for Submission {
    fn default() -> (r: Submission)
        ensures
            r@ == empty_submission(),
    {
        let r = Submission {
            notes: String::new(),
            references: Vec::new(),
            saturation_curves: Vec::new(),
            scheme_element: Elements::H,
            scheme_gs: GroundState { level: "0".to_owned(), term_symbol: String::new() },
            scheme_ip_term_symbol: String::new(),
            scheme_lasers: Lasers::TiSa,
            scheme_transitions: empty_transitions(),
            scheme_last_step_to_ip: false,
            scheme_unit: TransitionUnit::CM1,
            submitted_by: String::new(),
        };
        assert(r@.references =~= Seq::empty());
        assert(r@.saturation_curves =~= Seq::empty());
        r
    }
}

/// Whether each text of a list is not empty and holds no delimiter.
pub open spec fn are_tokens(v: Seq<Seq<char>>) -> bool {
    forall|i: int|
        0 <= i < v.len() ==> (#[trigger] v[i]).len() > 0 && forall|k: int|
            0 <= k < v[i].len() ==> !is_delimiter(#[trigger] v[i][k])
}

/// A list of texts that are not empty and hold no delimiter is read again
/// from its joined text.
#[verifier::rlimit(40)]
pub proof fn lemma_tokens_of_joined(v: Seq<Seq<char>>)
    requires
        are_tokens(v),
    ensures
        tokens(comma_joined(v)) == v,
        v.len() > 0 ==> comma_joined(v).len() > 0,
    decreases v.len(),
{
    reveal_strlit(", ");
    if v.len() == 0 {
        assert(tokens(comma_joined(v)) =~= v);
    } else if v.len() == 1 {
        lemma_tokens_of_a_token(v[0]);
        assert(seq![v[0]] =~= v);
    } else {
        let before = v.drop_last();
        let last = v.last();
        assert(are_tokens(before)) by {
            assert forall|i: int| 0 <= i < before.len() implies (#[trigger] before[i]).len() > 0
                && forall|k: int| 0 <= k < before[i].len() ==> !is_delimiter(
                #[trigger] before[i][k],
            ) by {
                assert(before[i] == v[i]);
            }
        }
        lemma_tokens_of_joined(before);
        let sep = ", "@;
        assert(sep.len() == 2 && sep[0] == ',' && sep[1] == ' ');
        let tail = sep + last;
        assert(comma_joined(v) =~= comma_joined(before) + tail);
        assert(tail[0] == ',');
        lemma_tokens_of_both(comma_joined(before), tail, 0);
        // Behind the two delimiters stands the last text alone.
        assert(tail[1] == ' ');
        assert(tokens_from(tail, 0) == tokens_from(tail, 1));
        assert(tokens_from(tail, 1) == tokens_from(tail, 2));
        lemma_tokens_of_the_end(sep, last, 0);
        assert(last.len() > 0 && forall|k: int|
            0 <= k < last.len() ==> !is_delimiter(#[trigger] last[k])) by {
            assert(last == v[v.len() - 1]);
        }
        lemma_tokens_of_a_token(last);
        assert(before + seq![last] =~= v);
    }
}

/// What is shown for a list of numbers is read again as the numbers shown,
/// each of which writes the same number as the one it shows.
pub proof fn lemma_shown_list_is_read_again(v: Seq<Seq<char>>, name: Seq<char>)
    requires
        forall|i: int| 0 <= i < v.len() ==> is_listable(#[trigger] v[i]),
    ensures
        numbers_of(shown_list(v), name) == Ok::<Seq<Seq<char>>, Seq<char>>(shown_numbers(v)),
        v.len() > 0 ==> shown_list(v).len() > 0,
        forall|i: int| 0 <= i < v.len() ==> same_decimal(#[trigger] shown_numbers(v)[i], v[i]),
{
    let shown = shown_numbers(v);
    assert forall|i: int| 0 <= i < shown.len() implies (#[trigger] shown[i]).len() > 0
        && is_float_text(shown[i]) && same_decimal(shown[i], v[i]) && forall|k: int|
        0 <= k < shown[i].len() ==> !is_delimiter(#[trigger] shown[i][k]) by {
        assert(is_listable(v[i]));
        law_shown_number_is_read_again(v[i]);
    }
    lemma_tokens_of_joined(shown);
}

/// Whether a curve can be shown in the editor and added again from there: its
/// data fit together, it has x values, its uncertainties are left out or
/// given, and each of its numbers can stand in a list.
pub open spec fn can_be_edited(c: SaturationCurveView) -> bool {
    &&& c.lengths_match()
    &&& c.xdat.len() > 0
    &&& forall|i: int| 0 <= i < c.xdat.len() ==> is_listable(#[trigger] c.xdat[i])
    &&& forall|i: int| 0 <= i < c.ydat.len() ==> is_listable(#[trigger] c.ydat[i])
    &&& (c.xdat_unc matches Some(u) ==> u.len() > 0 && forall|i: int|
        0 <= i < u.len() ==> is_listable(#[trigger] u[i]))
    &&& (c.ydat_unc matches Some(u) ==> u.len() > 0 && forall|i: int|
        0 <= i < u.len() ==> is_listable(#[trigger] u[i]))
}

/// A curve as the editor shows it: each number as it is shown.
pub open spec fn curve_as_shown(c: SaturationCurveView) -> SaturationCurveView {
    SaturationCurveView {
        xdat: shown_numbers(c.xdat),
        xdat_unc: match c.xdat_unc {
            Some(u) => Some(shown_numbers(u)),
            None => None,
        },
        ydat: shown_numbers(c.ydat),
        ydat_unc: match c.ydat_unc {
            Some(u) => Some(shown_numbers(u)),
            None => None,
        },
        ..c
    }
}

/// Whether two lists hold the same numbers, place by place.
pub open spec fn same_decimals(a: Seq<Seq<char>>, b: Seq<Seq<char>>) -> bool {
    a.len() == b.len() && forall|i: int| 0 <= i < a.len() ==> same_decimal(#[trigger] a[i], b[i])
}

/// What the editor shows for a curve builds the same curve again: for every
/// curve whose data fit together, that has x values, and whose numbers have
/// no minus sign in front and no negative exponent beyond
/// [`crate::number::MAX_SHIFT`], the four texts shown give a curve with the
/// same title, notes, unit and fit mark and, place by place, the same
/// numbers.
#[verifier::rlimit(40)]
pub proof fn law_shown_curve_is_built_again(c: SaturationCurveView)
    requires
        can_be_edited(c),
    ensures
        curve_of_parts(
            c.title,
            c.notes,
            c.units,
            c.fit,
            shown_list(c.xdat),
            shown_optional_list(c.xdat_unc),
            shown_list(c.ydat),
            shown_optional_list(c.ydat_unc),
        ) == Ok::<SaturationCurveView, Seq<char>>(curve_as_shown(c)),
        same_decimals(curve_as_shown(c).xdat, c.xdat),
        same_decimals(curve_as_shown(c).ydat, c.ydat),
        c.xdat_unc matches Some(u) ==> same_decimals(curve_as_shown(c).xdat_unc->Some_0, u),
        c.ydat_unc matches Some(u) ==> same_decimals(curve_as_shown(c).ydat_unc->Some_0, u),
        curve_as_shown(c).lengths_match(),
{
    lemma_shown_list_is_read_again(c.xdat, "x"@);
    lemma_shown_list_is_read_again(c.ydat, "y"@);
    match c.xdat_unc {
        Some(u) => {
            lemma_shown_list_is_read_again(u, "x uncertainty"@);
        },
        None => {},
    }
    match c.ydat_unc {
        Some(u) => {
            lemma_shown_list_is_read_again(u, "y uncertainty"@);
        },
        None => {},
    }
}

} // verus!
