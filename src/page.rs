//! Reading a problem page of the contest site: its samples, its time limit
//! and its language menu.

use vstd::prelude::*;
use vstd::string::{StrSliceExecFns, StringExecFns};
use crate::config::{opt_text, texts};
use crate::example::{IO, packing_to_io};

verus! {

pub open spec fn is_digit(c: char) -> bool {
    '0' <= c && c <= '9'
}

pub open spec fn digit_value(c: char) -> nat {
    (c as int - '0' as int) as nat
}

/// The number that a string of decimal digits writes.
pub open spec fn decimal_value(s: Seq<char>) -> nat
    decreases s.len(),
{
    if s.len() == 0 {
        0
    } else {
        decimal_value(s.drop_last()) * 10 + digit_value(s.last())
    }
}

pub open spec fn all_digits(s: Seq<char>) -> bool {
    forall|i: int| 0 <= i < s.len() ==> is_digit(#[trigger] s[i])
}

proof fn lemma_decimal_grows(s: Seq<char>, n: int)
    requires
        0 <= n <= s.len(),
        all_digits(s),
    ensures
        decimal_value(s.subrange(0, n)) <= decimal_value(s),
    decreases s.len() - n,
{
    if n < s.len() {
        assert(s.subrange(0, n + 1).drop_last() =~= s.subrange(0, n));
        lemma_decimal_grows(s, n + 1);
    } else {
        assert(s.subrange(0, n) =~= s);
    }
}

/// The value of a non-empty string of decimal digits, if it fits in `u128`.
pub fn parse_decimal(s: &str) -> (r: Option<u128>)
    ensures
        r is Some <==> s@.len() > 0 && all_digits(s@) && decimal_value(s@) <= u128::MAX,
        r is Some ==> r->Some_0 == decimal_value(s@),
{
    let len = s.unicode_len();
    if len == 0 {
        return None;
    }
    let mut acc: u128 = 0;
    let mut i: usize = 0;
    while i < len
        invariant
            len == s@.len(),
            0 <= i <= len,
            all_digits(s@.subrange(0, i as int)),
            acc == decimal_value(s@.subrange(0, i as int)),
        decreases len - i,
    {
        let c = s.get_char(i);
        if !('0' <= c && c <= '9') {
            assert(!all_digits(s@));
            return None;
        }
        let d: u128 = ((c as u32) - ('0' as u32)) as u128;
        assert(s@.subrange(0, i + 1).drop_last() =~= s@.subrange(0, i as int));
        assert(decimal_value(s@.subrange(0, i + 1)) == acc * 10 + d);
        if acc > (u128::MAX - d) / 10 {
            proof {
                assert(acc * 10 + d > u128::MAX) by (nonlinear_arith)
                    requires
                        acc > (u128::MAX - d) / 10,
                        d <= 9,
                ;
                if all_digits(s@) {
                    lemma_decimal_grows(s@, i + 1);
                }
            }
            return None;
        }
        proof {
            assert(acc * 10 + d <= u128::MAX) by (nonlinear_arith)
                requires
                    acc <= (u128::MAX - d) / 10,
                    d <= 9,
            ;
            assert forall|j: int| 0 <= j < i + 1 implies is_digit(#[trigger] s@.subrange(0, i + 1)[j]) by {
                if j < i {
                    assert(s@.subrange(0, i + 1)[j] == s@.subrange(0, i as int)[j]);
                }
            }
        }
        acc = acc * 10 + d;
        i = i + 1;
    }
    assert(s@.subrange(0, len as int) =~= s@);
    Some(acc)
}

/// Index of the first `.` at or after `from`, or the length.
pub open spec fn point_index(s: Seq<char>, from: int) -> int
    decreases s.len() - from,
{
    if from >= s.len() {
        s.len() as int
    } else if s[from] == '.' {
        from
    } else {
        point_index(s, from + 1)
    }
}

pub open spec fn whole_part(s: Seq<char>) -> Seq<char> {
    s.subrange(0, point_index(s, 0))
}

pub open spec fn fraction_part(s: Seq<char>) -> Seq<char> {
    let k = point_index(s, 0);
    if k < s.len() {
        s.subrange(k + 1, s.len() as int)
    } else {
        Seq::empty()
    }
}

/// The first three digits of a fraction, padded with zeros.
pub open spec fn first_three(f: Seq<char>) -> Seq<char> {
    if f.len() >= 3 {
        f.subrange(0, 3)
    } else {
        f + Seq::new((3 - f.len()) as nat, |i: int| '0')
    }
}

/// A number of seconds written `D` or `D.F` (decimal digits, `D` not empty),
/// in whole milliseconds: the digits of the seconds followed by those of
/// the milliseconds, further decimals dropped.
pub open spec fn seconds_valid(s: Seq<char>) -> bool {
    whole_part(s).len() > 0 && all_digits(whole_part(s)) && all_digits(fraction_part(s))
}

pub open spec fn millis_digits(s: Seq<char>) -> Seq<char> {
    whole_part(s) + first_three(fraction_part(s))
}

fn find_point(s: &str, len: usize) -> (r: usize)
    requires
        len == s@.len(),
    ensures
        r == point_index(s@, 0),
        r <= len,
{
    let mut i: usize = 0;
    while i < len
        invariant
            i <= len,
            len == s@.len(),
            point_index(s@, 0) == point_index(s@, i as int),
        decreases len - i,
    {
        if s.get_char(i) == '.' {
            return i;
        }
        i = i + 1;
    }
    i
}

fn digits_only(s: &str) -> (r: bool)
    ensures
        r == all_digits(s@),
{
    let len = s.unicode_len();
    let mut i: usize = 0;
    while i < len
        invariant
            i <= len,
            len == s@.len(),
            forall|j: int| 0 <= j < i ==> is_digit(#[trigger] s@[j]),
        decreases len - i,
    {
        let c = s.get_char(i);
        if !('0' <= c && c <= '9') {
            return false;
        }
        i = i + 1;
    }
    true
}

/// A number of seconds in whole milliseconds, if it is written `D` or
/// `D.F` and the result fits in `u128`.
pub fn parse_seconds_ms(s: &str) -> (r: Option<u128>)
    ensures
        r is Some <==> seconds_valid(s@) && decimal_value(millis_digits(s@)) <= u128::MAX,
        r is Some ==> r->Some_0 == decimal_value(millis_digits(s@)),
{
    let len = s.unicode_len();
    let k = find_point(s, len);
    if k == 0 {
        return None;
    }
    let whole = s.substring_char(0, k);
    let fraction = if k < len {
        s.substring_char(k + 1, len)
    } else {
        ""
    };
    assert(whole@ == whole_part(s@));
    proof {
        if k >= len {
            reveal_strlit("");
        }
    }
    assert(fraction@ == fraction_part(s@));
    if !digits_only(fraction) {
        return None;
    }
    let flen = fraction.unicode_len();
    let padded = if flen >= 3 {
        String::from_str(fraction.substring_char(0, 3))
    } else if flen == 2 {
        proof {
            reveal_strlit("0");
        }
        String::from_str(fraction).concat("0")
    } else if flen == 1 {
        proof {
            reveal_strlit("00");
        }
        String::from_str(fraction).concat("00")
    } else {
        proof {
            reveal_strlit("000");
        }
        String::from_str("000")
    };
    assert(padded@ =~= first_three(fraction@));
    let digits = String::from_str(whole).concat(padded.as_str());
    assert(digits@ == millis_digits(s@));
    proof {
        assert(all_digits(first_three(fraction@)));
        if all_digits(whole@) {
            assert(all_digits(digits@));
        } else {
            let j = choose|j: int| 0 <= j < whole@.len() && !is_digit(#[trigger] whole@[j]);
            assert(digits@[j] == whole@[j]);
        }
    }
    parse_decimal(digits.as_str())
}

/// Why a page could not be read.
#[derive(Clone, Copy, Debug, PartialEq, Eq, Structural)]
pub enum PageError {
    /// A selector or a pattern was refused.
    Unreadable,
    /// The sample blocks do not pair up into inputs and outputs.
    UnpairedSamples,
    /// The page states no time limit.
    NoTimeLimit,
    /// The time limit is not a number of seconds or milliseconds.
    BadTimeLimit,
    /// A language entry lacks its name or its id.
    MalformedMenu,
    /// An element or attribute that the page should have is missing.
    MissingField,
}

/// For each element that a selector matches in a page, in document order,
/// the text nodes below it.
pub uninterp spec fn element_texts(page: Seq<char>, selector: Seq<char>) -> Option<
    Seq<Seq<Seq<char>>>,
>;

/// For each element that a selector matches in a page, in document order,
/// the value of an attribute.
pub uninterp spec fn element_attrs(page: Seq<char>, selector: Seq<char>, name: Seq<char>) -> Option<
    Seq<Option<Seq<char>>>,
>;

/// Group 1 of the leftmost match of a pattern in a text.
pub uninterp spec fn first_capture(pattern: Seq<char>, text: Seq<char>) -> Option<Seq<char>>;

pub open spec fn nested_texts(v: Seq<Vec<String>>) -> Seq<Seq<Seq<char>>> {
    v.map_values(|e: Vec<String>| texts(e@))
}

/// Relies on scraper: `Selector::parse` (`None` when it refuses the
/// selector), `Html::parse_document`, `Html::select` (matching elements in
/// document order) and `ElementRef::text` (the text nodes below one).
#[verifier::external_body]
fn select_text_nodes(page: &str, selector: &str) -> (r: Option<Vec<Vec<String>>>)
    ensures
        r is Some <==> element_texts(page@, selector@) is Some,
        r is Some ==> element_texts(page@, selector@)->Some_0 == nested_texts(r->Some_0@),
{
    let sel = scraper::Selector::parse(selector).ok()?;
    let html = scraper::Html::parse_document(page);
    let found = html.select(&sel).map(|e| e.text().map(|t| t.to_string()).collect()).collect();
    Some(found)
}

/// Relies on scraper: `Selector::parse` (`None` when it refuses the
/// selector), `Html::parse_document`, `Html::select` (matching elements in
/// document order) and `ElementRef::attr`.
#[verifier::external_body]
fn select_attrs(page: &str, selector: &str, name: &str) -> (r: Option<Vec<Option<String>>>)
    ensures
        r is Some <==> element_attrs(page@, selector@, name@) is Some,
        r is Some ==> element_attrs(page@, selector@, name@)->Some_0 == r->Some_0@.map_values(
            |a: Option<String>| opt_text(a),
        ),
{
    let sel = scraper::Selector::parse(selector).ok()?;
    let html = scraper::Html::parse_document(page);
    Some(html.select(&sel).map(|e| e.attr(name).map(|a| a.to_string())).collect())
}

/// Relies on regex: `Regex::new` (`None` when it refuses the pattern) and
/// `Regex::captures`, group 1 of the leftmost match (`None` without a match
/// or when the group took no part).
#[verifier::external_body]
fn capture_group(pattern: &str, text: &str) -> (r: Option<String>)
    ensures
        r is Some <==> first_capture(pattern@, text@) is Some,
        r is Some ==> first_capture(pattern@, text@)->Some_0 == r->Some_0@,
{
    let re = regex::Regex::new(pattern).ok()?;
    re.captures(text)?.get(1).map(|m| m.as_str().to_string())
}

/// The pieces of a text run together.
pub open spec fn joined(pieces: Seq<Seq<char>>) -> Seq<char>
    decreases pieces.len(),
{
    if pieces.len() == 0 {
        Seq::empty()
    } else {
        joined(pieces.drop_last()) + pieces.last()
    }
}

/// The text nodes of an element run together.
pub fn join_texts(pieces: &Vec<String>) -> (r: String)
    ensures
        r@ == joined(texts(pieces@)),
{
    let mut out = String::new();
    let mut i: usize = 0;
    while i < pieces.len()
        invariant
            i <= pieces@.len(),
            out@ == joined(texts(pieces@.subrange(0, i as int))),
        decreases pieces@.len() - i,
    {
        assert(texts(pieces@.subrange(0, i + 1)).drop_last() =~= texts(pieces@.subrange(0, i as int)));
        out.append(pieces[i].as_str());
        i = i + 1;
    }
    assert(pieces@.subrange(0, pieces@.len() as int) =~= pieces@);
    out
}

/// The examples that sample blocks give, each block given by its text
/// nodes: blocks alternate between input and expected output.
pub fn examples_from_blocks(blocks: &Vec<Vec<String>>) -> (r: Result<Vec<IO>, PageError>)
    ensures
        r is Err <==> blocks@.len() % 2 == 1,
        r is Err ==> r->Err_0 == PageError::UnpairedSamples,
        r is Ok ==> r->Ok_0@.len() == blocks@.len() / 2 && forall|i: int|
            0 <= i < r->Ok_0@.len() ==> (#[trigger] r->Ok_0@[i]).input@ == joined(
                texts(blocks@[2 * i]@),
            ) && r->Ok_0@[i].output@ == joined(texts(blocks@[2 * i + 1]@)),
{
    if blocks.len() % 2 == 1 {
        return Err(PageError::UnpairedSamples);
    }
    let mut samples: Vec<String> = Vec::new();
    let mut i: usize = 0;
    while i < blocks.len()
        invariant
            i <= blocks@.len(),
            samples@.len() == i,
            forall|j: int| 0 <= j < i ==> (#[trigger] samples@[j])@ == joined(texts(blocks@[j]@)),
        decreases blocks@.len() - i,
    {
        samples.push(join_texts(&blocks[i]));
        i = i + 1;
    }
    Ok(packing_to_io(&samples))
}

pub open spec fn samples_selector() -> Seq<char> {
    "span[class=\"lang-ja\"] h3 + pre"@
}

/// The examples of a problem page.
pub fn examples_of_page(page: &str) -> (r: Result<Vec<IO>, PageError>)
    ensures
        element_texts(page@, samples_selector()) is None ==> r == Err::<Vec<IO>, _>(
            PageError::Unreadable,
        ),
        element_texts(page@, samples_selector()) matches Some(blocks) ==> {
            &&& (r is Err <==> blocks.len() % 2 == 1)
            &&& r is Err ==> r->Err_0 == PageError::UnpairedSamples
            &&& r is Ok ==> r->Ok_0@.len() == blocks.len() / 2 && forall|i: int|
                0 <= i < r->Ok_0@.len() ==> (#[trigger] r->Ok_0@[i]).input@ == joined(blocks[2 * i])
                    && r->Ok_0@[i].output@ == joined(blocks[2 * i + 1])
        },
{
    match select_text_nodes(page, "span[class=\"lang-ja\"] h3 + pre") {
        None => Err(PageError::Unreadable),
        Some(blocks) => examples_from_blocks(&blocks),
    }
}

/// The time limit, from group 1 of the seconds pattern and, failing that,
/// of the milliseconds pattern.
pub open spec fn limit_from(sec: Option<Seq<char>>, msec: Option<Seq<char>>) -> Result<nat, PageError> {
    match sec {
        Some(s) => if seconds_valid(s) && decimal_value(millis_digits(s)) <= u128::MAX {
            Ok(decimal_value(millis_digits(s)))
        } else {
            Err(PageError::BadTimeLimit)
        },
        None => match msec {
            Some(m) => if m.len() > 0 && all_digits(m) && decimal_value(m) <= u128::MAX {
                Ok(decimal_value(m))
            } else {
                Err(PageError::BadTimeLimit)
            },
            None => Err(PageError::NoTimeLimit),
        },
    }
}

/// The time limit in milliseconds, from what the two patterns captured.
pub fn time_limit_from_captures(sec: Option<&str>, msec: Option<&str>) -> (r: Result<u128, PageError>)
    ensures
        r is Ok <==> limit_from(opt_str(sec), opt_str(msec)) is Ok,
        r is Ok ==> r->Ok_0 == limit_from(opt_str(sec), opt_str(msec))->Ok_0,
        r is Err ==> r->Err_0 == limit_from(opt_str(sec), opt_str(msec))->Err_0,
{
    match sec {
        Some(s) => match parse_seconds_ms(s) {
            Some(ms) => Ok(ms),
            None => Err(PageError::BadTimeLimit),
        },
        None => match msec {
            Some(m) => match parse_decimal(m) {
                Some(ms) => Ok(ms),
                None => Err(PageError::BadTimeLimit),
            },
            None => Err(PageError::NoTimeLimit),
        },
    }
}

pub open spec fn opt_str(s: Option<&str>) -> Option<Seq<char>> {
    match s {
        Some(t) => Some(t@),
        None => None,
    }
}

pub open spec fn limit_selector() -> Seq<char> {
    "div[class=\"col-sm-12\"] > p"@
}

pub open spec fn seconds_pattern() -> Seq<char> {
    "Time Limit: (.+) sec"@
}

pub open spec fn millis_pattern() -> Seq<char> {
    "Time Limit: (.+) msec"@
}

/// The time limit of a problem page: the first text node of the first
/// statement paragraph, read as seconds or milliseconds.
pub open spec fn page_time_limit(page: Seq<char>) -> Result<nat, PageError> {
    match element_texts(page, limit_selector()) {
        None => Err(PageError::Unreadable),
        Some(found) => if found.len() == 0 || found[0].len() == 0 {
            Err(PageError::NoTimeLimit)
        } else {
            limit_from(
                first_capture(seconds_pattern(), found[0][0]),
                first_capture(millis_pattern(), found[0][0]),
            )
        },
    }
}

/// The time limit of a problem page, in milliseconds.
pub fn time_limit_of_page(page: &str) -> (r: Result<u128, PageError>)
    ensures
        r is Ok <==> page_time_limit(page@) is Ok,
        r is Ok ==> r->Ok_0 == page_time_limit(page@)->Ok_0,
        r is Err ==> r->Err_0 == page_time_limit(page@)->Err_0,
{
    let found = match select_text_nodes(page, "div[class=\"col-sm-12\"] > p") {
        None => return Err(PageError::Unreadable),
        Some(f) => f,
    };
    if found.len() == 0 || found[0].len() == 0 {
        return Err(PageError::NoTimeLimit);
    }
    let text = found[0][0].as_str();
    let sec = capture_group("Time Limit: (.+) sec", text);
    let msec = capture_group("Time Limit: (.+) msec", text);
    let sec_text = match &sec {
        Some(s) => Some(s.as_str()),
        None => None,
    };
    let msec_text = match &msec {
        Some(m) => Some(m.as_str()),
        None => None,
    };
    time_limit_from_captures(sec_text, msec_text)
}

/// The language menu from its entries' text nodes and `value` attributes:
/// the first entry is a placeholder; each other gives its first text node
/// as the name and its value as the id.
pub open spec fn menu_from(names: Seq<Seq<Seq<char>>>, values: Seq<Option<Seq<char>>>) -> Result<
    Seq<(Seq<char>, Seq<char>)>,
    PageError,
> {
    if names.len() != values.len() {
        Err(PageError::MalformedMenu)
    } else if exists|i: int| 1 <= i < names.len() && (names[i].len() == 0 || #[trigger] values[i] is None) {
        Err(PageError::MalformedMenu)
    } else if names.len() == 0 {
        Ok(Seq::empty())
    } else {
        Ok(Seq::new((names.len() - 1) as nat, |i: int| (names[i + 1][0], values[i + 1]->Some_0)))
    }
}

pub open spec fn pairs_view(v: Seq<(String, String)>) -> Seq<(Seq<char>, Seq<char>)> {
    v.map_values(|p: (String, String)| (p.0@, p.1@))
}

/// The language menu from its entries' text nodes and `value` attributes.
pub fn lang_menu_from(names: &Vec<Vec<String>>, values: &Vec<Option<String>>) -> (r: Result<
    Vec<(String, String)>,
    PageError,
>)
    ensures
        r is Ok <==> menu_from(nested_texts(names@), values@.map_values(|a: Option<String>| opt_text(a))) is Ok,
        r is Ok ==> pairs_view(r->Ok_0@) == menu_from(
            nested_texts(names@),
            values@.map_values(|a: Option<String>| opt_text(a)),
        )->Ok_0,
        r is Err ==> r->Err_0 == PageError::MalformedMenu,
{
    let ghost ns = nested_texts(names@);
    let ghost vs = values@.map_values(|a: Option<String>| opt_text(a));
    if names.len() != values.len() {
        return Err(PageError::MalformedMenu);
    }
    let mut out: Vec<(String, String)> = Vec::new();
    let mut i: usize = 1;
    while i < names.len()
        invariant
            names@.len() == values@.len(),
            ns == nested_texts(names@),
            vs == values@.map_values(|a: Option<String>| opt_text(a)),
            1 <= i <= names@.len() || (i == 1 && names@.len() == 0),
            out@.len() == i - 1,
            forall|j: int| 1 <= j < i ==> ns[j].len() > 0 && (#[trigger] vs[j]) is Some,
            forall|j: int| 0 <= j < out@.len() ==> (#[trigger] pairs_view(out@)[j]) == (ns[j + 1][0], vs[j + 1]->Some_0),
        decreases names@.len() - i,
    {
        if names[i].len() == 0 {
            assert(ns[i as int].len() == 0);
            return Err(PageError::MalformedMenu);
        }
        let id = match &values[i] {
            Some(v) => v.clone(),
            None => {
                assert(vs[i as int] is None);
                return Err(PageError::MalformedMenu);
            },
        };
        let ghost before = out@;
        let name = names[i][0].clone();
        assert(name@ == ns[i as int][0]);
        assert(id@ == vs[i as int]->Some_0);
        out.push((name, id));
        assert(pairs_view(out@) =~= pairs_view(before).push((ns[i as int][0], vs[i as int]->Some_0)));
        i = i + 1;
    }
    proof {
        if names@.len() > 0 {
            assert(pairs_view(out@) =~= menu_from(ns, vs)->Ok_0);
        } else {
            assert(pairs_view(out@) =~= Seq::<(Seq<char>, Seq<char>)>::empty());
        }
    }
    Ok(out)
}

/// The language menu that `selector` picks out of a page: none when the
/// selector is refused.
pub open spec fn page_menu(page: Seq<char>, selector: Seq<char>) -> Option<
    Result<Seq<(Seq<char>, Seq<char>)>, PageError>,
> {
    match (element_texts(page, selector), element_attrs(page, selector, "value"@)) {
        (Some(names), Some(values)) => Some(menu_from(names, values)),
        _ => None,
    }
}

fn menu_of(page: &str, selector: &str) -> (r: Result<Vec<(String, String)>, PageError>)
    ensures
        page_menu(page@, selector@) is None ==> r == Err::<Vec<(String, String)>, _>(PageError::Unreadable),
        page_menu(page@, selector@) matches Some(m) ==> {
            &&& (r is Ok <==> m is Ok)
            &&& r is Ok ==> pairs_view(r->Ok_0@) == m->Ok_0
            &&& r is Err ==> r->Err_0 == PageError::MalformedMenu
        },
{
    let names = select_text_nodes(page, selector);
    let values = select_attrs(page, selector, "value");
    match (names, values) {
        (Some(n), Some(v)) => lang_menu_from(&n, &v),
        _ => Err(PageError::Unreadable),
    }
}

/// The languages that a task page offers, as (name, id) pairs.
pub fn lang_select(page: &str) -> (r: Result<Vec<(String, String)>, PageError>)
    ensures
        page_menu(page@, "option"@) is None ==> r == Err::<Vec<(String, String)>, _>(PageError::Unreadable),
        page_menu(page@, "option"@) matches Some(m) ==> {
            &&& (r is Ok <==> m is Ok)
            &&& r is Ok ==> pairs_view(r->Ok_0@) == m->Ok_0
            &&& r is Err ==> r->Err_0 == PageError::MalformedMenu
        },
{
    menu_of(page, "option")
}

pub open spec fn submit_menu_selector() -> Seq<char> {
    "label[for=\"select-lang\"] + div select option"@
}

/// The languages of the language selector of a contest's submit page.
pub fn submit_lang_select(page: &str) -> (r: Result<Vec<(String, String)>, PageError>)
    ensures
        page_menu(page@, submit_menu_selector()) is None ==> r == Err::<Vec<(String, String)>, _>(PageError::Unreadable),
        page_menu(page@, submit_menu_selector()) matches Some(m) ==> {
            &&& (r is Ok <==> m is Ok)
            &&& r is Ok ==> pairs_view(r->Ok_0@) == m->Ok_0
            &&& r is Err ==> r->Err_0 == PageError::MalformedMenu
        },
{
    menu_of(page, "label[for=\"select-lang\"] + div select option")
}

/// The attribute `name` of the first element that `selector` picks.
pub open spec fn first_attr(page: Seq<char>, selector: Seq<char>, name: Seq<char>) -> Result<
    Seq<char>,
    PageError,
> {
    match element_attrs(page, selector, name) {
        None => Err(PageError::Unreadable),
        Some(found) => if found.len() > 0 && found[0] is Some {
            Ok(found[0]->Some_0)
        } else {
            Err(PageError::MissingField)
        },
    }
}

/// The attribute `name` of the first element that `selector` picks.
pub fn first_attr_of(page: &str, selector: &str, name: &str) -> (r: Result<String, PageError>)
    ensures
        r is Ok <==> first_attr(page@, selector@, name@) is Ok,
        r is Ok ==> r->Ok_0@ == first_attr(page@, selector@, name@)->Ok_0,
        r is Err ==> r->Err_0 == first_attr(page@, selector@, name@)->Err_0,
{
    match select_attrs(page, selector, name) {
        None => Err(PageError::Unreadable),
        Some(found) => {
            if found.len() > 0 {
                match &found[0] {
                    Some(v) => {
                        return Ok(v.clone());
                    },
                    None => {},
                }
            }
            Err(PageError::MissingField)
        },
    }
}

pub open spec fn site() -> Seq<char> {
    "https://atcoder.jp"@
}

/// A path of the contest site as a full address.
pub fn site_url(path: &str) -> (r: String)
    ensures
        r@ == site() + path@,
{
    String::from_str("https://atcoder.jp").concat(path)
}

/// The submit page of the newest rated contest listed on the archive page.
pub fn latest_submit_url(archive: &str) -> (r: Result<String, PageError>)
    ensures
        r is Ok <==> first_attr(archive@, "div[class=\"table-responsive\"] tbody td span + a"@, "href"@) is Ok,
        r is Ok ==> r->Ok_0@ == site() + first_attr(
            archive@,
            "div[class=\"table-responsive\"] tbody td span + a"@,
            "href"@,
        )->Ok_0 + "/submit"@,
        r is Err ==> r->Err_0 == first_attr(
            archive@,
            "div[class=\"table-responsive\"] tbody td span + a"@,
            "href"@,
        )->Err_0,
{
    let href = first_attr_of(archive, "div[class=\"table-responsive\"] tbody td span + a", "href")?;
    Ok(site_url(href.as_str()).concat("/submit"))
}

/// The fields of a task page's submit form.
#[derive(Debug)]
pub struct SubmitForm {
    pub task_screen_name: String,
    pub csrf_token: String,
    /// Full address that the form posts to.
    pub action: String,
}

pub open spec fn task_name_field(page: Seq<char>) -> Result<Seq<char>, PageError> {
    first_attr(page, "input[name=\"data.TaskScreenName\"]"@, "value"@)
}

pub open spec fn csrf_field(page: Seq<char>) -> Result<Seq<char>, PageError> {
    first_attr(page, "input[name=\"csrf_token\"]"@, "value"@)
}

pub open spec fn action_field(page: Seq<char>) -> Result<Seq<char>, PageError> {
    first_attr(page, "form[class=\"form-horizontal form-code-submit\"]"@, "action"@)
}

/// The CSRF token of a page's form.
pub fn csrf_token_of(page: &str) -> (r: Result<String, PageError>)
    ensures
        r is Ok <==> csrf_field(page@) is Ok,
        r is Ok ==> r->Ok_0@ == csrf_field(page@)->Ok_0,
        r is Err ==> r->Err_0 == csrf_field(page@)->Err_0,
{
    first_attr_of(page, "input[name=\"csrf_token\"]", "value")
}

/// The submit form of a task page; the first missing field is the error.
pub fn submit_form_of(page: &str) -> (r: Result<SubmitForm, PageError>)
    ensures
        r is Ok <==> task_name_field(page@) is Ok && csrf_field(page@) is Ok && action_field(page@) is Ok,
        r is Ok ==> {
            &&& r->Ok_0.task_screen_name@ == task_name_field(page@)->Ok_0
            &&& r->Ok_0.csrf_token@ == csrf_field(page@)->Ok_0
            &&& r->Ok_0.action@ == site() + action_field(page@)->Ok_0
        },
        r is Err ==> r->Err_0 == if task_name_field(page@) is Err {
            task_name_field(page@)->Err_0
        } else if csrf_field(page@) is Err {
            csrf_field(page@)->Err_0
        } else {
            action_field(page@)->Err_0
        },
{
    let task_screen_name = first_attr_of(page, "input[name=\"data.TaskScreenName\"]", "value")?;
    let csrf_token = csrf_token_of(page)?;
    let action = first_attr_of(page, "form[class=\"form-horizontal form-code-submit\"]", "action")?;
    Ok(SubmitForm { task_screen_name, csrf_token, action: site_url(action.as_str()) })
}

} // verus!
