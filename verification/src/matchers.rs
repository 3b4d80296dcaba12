//! [`ValueMatcher`] implementations for the concrete value types the query
//! DSL works with: strings, integers, booleans, identifiers, domains, data
//! types, property values, and vectors of matchable values.
use crate::ids::{HomieDomain, HomieDomainView, HomieID};
use crate::text::{lex_lt, str_lex_lt};
use crate::value::{HomieDataType, HomieValue, ValueView};
use crate::value_condition::{
    contains_match, empty_match_str, regex_is_match, regex_match, scalar_matches,
    scalar_matches_spec, seq_contains_match, AsMatchStr, ConditionOperator, ValueCompare,
    ValueMatcher, ValueSet,
};
use vstd::prelude::*;

verus! {

// --- String ---
impl AsMatchStr for String {
    open spec fn match_str(&self) -> Seq<char> {
        self@
    }

    fn as_match_str(&self) -> (r: &str) {
        self.as_str()
    }
}

impl ValueCompare for String {
    open spec fn val_eq(&self, other: &Self) -> bool {
        self@ == other@
    }

    open spec fn val_lt(&self, other: &Self) -> bool {
        lex_lt(self@, other@)
    }

    fn eq_value(&self, other: &Self) -> (r: bool) {
        *self == *other
    }

    fn lt_value(&self, other: &Self) -> (r: bool) {
        str_lex_lt(self.as_str(), other.as_str())
    }
}

impl ValueMatcher for String {

    open spec fn regex_spec(&self, pattern: Seq<char>) -> bool {
        regex_match(pattern, self@)
    }

    open spec fn matches_spec(
        &self,
        operator: ConditionOperator,
        operand: Option<&ValueSet<Self>>,
    ) -> bool {
        scalar_matches_spec(self, operator, operand)
    }

    fn matches_regex(&self, pattern: &str) -> (r: bool) {
        regex_is_match(pattern, self.as_str())
    }

    fn matches(&self, operator: ConditionOperator, operand: Option<&ValueSet<Self>>) -> (r: bool) {
        scalar_matches(self, operator, operand)
    }

    fn matches_literal(&self, other: &Self) -> (r: bool) {
        *self == *other
    }
}

// --- i64 ---
impl AsMatchStr for i64 {
    open spec fn match_str(&self) -> Seq<char> {
        Seq::<char>::empty()
    }

    fn as_match_str(&self) -> (r: &str) {
        empty_match_str()
    }
}

impl ValueCompare for i64 {
    open spec fn val_eq(&self, other: &Self) -> bool {
        *self == *other
    }

    open spec fn val_lt(&self, other: &Self) -> bool {
        *self < *other
    }

    fn eq_value(&self, other: &Self) -> (r: bool) {
        *self == *other
    }

    fn lt_value(&self, other: &Self) -> (r: bool) {
        *self < *other
    }
}

impl ValueMatcher for i64 {

    open spec fn regex_spec(&self, pattern: Seq<char>) -> bool {
        false
    }

    open spec fn matches_spec(
        &self,
        operator: ConditionOperator,
        operand: Option<&ValueSet<Self>>,
    ) -> bool {
        scalar_matches_spec(self, operator, operand)
    }

    fn matches_regex(&self, pattern: &str) -> (r: bool) {
        false
    }

    fn matches(&self, operator: ConditionOperator, operand: Option<&ValueSet<Self>>) -> (r: bool) {
        scalar_matches(self, operator, operand)
    }

    fn matches_literal(&self, other: &Self) -> (r: bool) {
        *self == *other
    }
}

// --- bool ---
impl AsMatchStr for bool {
    open spec fn match_str(&self) -> Seq<char> {
        Seq::<char>::empty()
    }

    fn as_match_str(&self) -> (r: &str) {
        empty_match_str()
    }
}

impl ValueCompare for bool {
    open spec fn val_eq(&self, other: &Self) -> bool {
        *self == *other
    }

    open spec fn val_lt(&self, other: &Self) -> bool {
        !*self && *other
    }

    fn eq_value(&self, other: &Self) -> (r: bool) {
        *self == *other
    }

    fn lt_value(&self, other: &Self) -> (r: bool) {
        !*self && *other
    }
}

impl ValueMatcher for bool {

    open spec fn regex_spec(&self, pattern: Seq<char>) -> bool {
        false
    }

    open spec fn matches_spec(
        &self,
        operator: ConditionOperator,
        operand: Option<&ValueSet<Self>>,
    ) -> bool {
        scalar_matches_spec(self, operator, operand)
    }

    fn matches_regex(&self, pattern: &str) -> (r: bool) {
        false
    }

    fn matches(&self, operator: ConditionOperator, operand: Option<&ValueSet<Self>>) -> (r: bool) {
        scalar_matches(self, operator, operand)
    }

    fn matches_literal(&self, other: &Self) -> (r: bool) {
        *self == *other
    }
}

// --- HomieID ---
impl AsMatchStr for HomieID {
    open spec fn match_str(&self) -> Seq<char> {
        self@
    }

    fn as_match_str(&self) -> (r: &str) {
        self.as_str()
    }
}

impl ValueCompare for HomieID {
    open spec fn val_eq(&self, other: &Self) -> bool {
        self@ == other@
    }

    open spec fn val_lt(&self, other: &Self) -> bool {
        lex_lt(self@, other@)
    }

    fn eq_value(&self, other: &Self) -> (r: bool) {
        *self == *other
    }

    fn lt_value(&self, other: &Self) -> (r: bool) {
        str_lex_lt(self.as_str(), other.as_str())
    }
}

impl ValueMatcher for HomieID {

    open spec fn regex_spec(&self, pattern: Seq<char>) -> bool {
        regex_match(pattern, self@)
    }

    open spec fn matches_spec(
        &self,
        operator: ConditionOperator,
        operand: Option<&ValueSet<Self>>,
    ) -> bool {
        scalar_matches_spec(self, operator, operand)
    }

    fn matches_regex(&self, pattern: &str) -> (r: bool) {
        regex_is_match(pattern, self.as_str())
    }

    fn matches(&self, operator: ConditionOperator, operand: Option<&ValueSet<Self>>) -> (r: bool) {
        scalar_matches(self, operator, operand)
    }

    fn matches_literal(&self, other: &Self) -> (r: bool) {
        *self == *other
    }
}

// --- HomieDataType ---
/// The canonical text of each data type, as it appears in a description
/// document.
pub open spec fn datatype_str_spec(dt: HomieDataType) -> Seq<char> {
    match dt {
        HomieDataType::Integer => "integer"@,
        HomieDataType::Float => "float"@,
        HomieDataType::Boolean => "boolean"@,
        HomieDataType::String => "string"@,
        HomieDataType::Enum => "enum"@,
        HomieDataType::Color => "color"@,
        HomieDataType::Datetime => "datetime"@,
        HomieDataType::Duration => "duration"@,
        HomieDataType::JSON => "json"@,
    }
}

/// Position of a data type in the declaration order, used as its rank for
/// order comparisons.
pub open spec fn datatype_rank(dt: HomieDataType) -> int {
    match dt {
        HomieDataType::Integer => 0,
        HomieDataType::Float => 1,
        HomieDataType::Boolean => 2,
        HomieDataType::String => 3,
        HomieDataType::Enum => 4,
        HomieDataType::Color => 5,
        HomieDataType::Datetime => 6,
        HomieDataType::Duration => 7,
        HomieDataType::JSON => 8,
    }
}

fn datatype_rank_exec(dt: HomieDataType) -> (r: u8)
    ensures
        r as int == datatype_rank(dt),
{
    match dt {
        HomieDataType::Integer => 0,
        HomieDataType::Float => 1,
        HomieDataType::Boolean => 2,
        HomieDataType::String => 3,
        HomieDataType::Enum => 4,
        HomieDataType::Color => 5,
        HomieDataType::Datetime => 6,
        HomieDataType::Duration => 7,
        HomieDataType::JSON => 8,
    }
}

impl AsMatchStr for HomieDataType {
    open spec fn match_str(&self) -> Seq<char> {
        datatype_str_spec(*self)
    }

    fn as_match_str(&self) -> (r: &str) {
        match self {
            HomieDataType::Integer => "integer",
            HomieDataType::Float => "float",
            HomieDataType::Boolean => "boolean",
            HomieDataType::String => "string",
            HomieDataType::Enum => "enum",
            HomieDataType::Color => "color",
            HomieDataType::Datetime => "datetime",
            HomieDataType::Duration => "duration",
            HomieDataType::JSON => "json",
        }
    }
}

impl ValueCompare for HomieDataType {
    open spec fn val_eq(&self, other: &Self) -> bool {
        *self == *other
    }

    open spec fn val_lt(&self, other: &Self) -> bool {
        datatype_rank(*self) < datatype_rank(*other)
    }

    fn eq_value(&self, other: &Self) -> (r: bool) {
        *self == *other
    }

    fn lt_value(&self, other: &Self) -> (r: bool) {
        datatype_rank_exec(*self) < datatype_rank_exec(*other)
    }
}

impl ValueMatcher for HomieDataType {

    open spec fn regex_spec(&self, pattern: Seq<char>) -> bool {
        regex_match(pattern, datatype_str_spec(*self))
    }

    open spec fn matches_spec(
        &self,
        operator: ConditionOperator,
        operand: Option<&ValueSet<Self>>,
    ) -> bool {
        scalar_matches_spec(self, operator, operand)
    }

    fn matches_regex(&self, pattern: &str) -> (r: bool) {
        regex_is_match(pattern, self.as_match_str())
    }

    fn matches(&self, operator: ConditionOperator, operand: Option<&ValueSet<Self>>) -> (r: bool) {
        scalar_matches(self, operator, operand)
    }

    fn matches_literal(&self, other: &Self) -> (r: bool) {
        *self == *other
    }
}

// --- HomieDomain ---
/// Rank of a domain variant, used for order comparisons: the default domain,
/// then the wildcard, then custom domains in lexicographic order.
pub open spec fn domain_rank(d: HomieDomainView) -> int {
    match d {
        HomieDomainView::Default => 0,
        HomieDomainView::All => 1,
        HomieDomainView::Custom(_) => 2,
    }
}

/// Strict order on domains: by rank, then lexicographically on custom names.
pub open spec fn domain_lt(a: HomieDomainView, b: HomieDomainView) -> bool {
    domain_rank(a) < domain_rank(b) || (match (a, b) {
        (HomieDomainView::Custom(x), HomieDomainView::Custom(y)) => lex_lt(x, y),
        _ => false,
    })
}

impl AsMatchStr for HomieDomain {
    open spec fn match_str(&self) -> Seq<char> {
        Seq::<char>::empty()
    }

    fn as_match_str(&self) -> (r: &str) {
        empty_match_str()
    }
}

impl ValueCompare for HomieDomain {
    open spec fn val_eq(&self, other: &Self) -> bool {
        self@ == other@
    }

    open spec fn val_lt(&self, other: &Self) -> bool {
        domain_lt(self@, other@)
    }

    fn eq_value(&self, other: &Self) -> (r: bool) {
        *self == *other
    }

    fn lt_value(&self, other: &Self) -> (r: bool) {
        match (self, other) {
            (HomieDomain::Custom(a), HomieDomain::Custom(b)) => str_lex_lt(
                a.as_str(),
                b.as_str(),
            ),
            (HomieDomain::Default, HomieDomain::All) => true,
            (HomieDomain::Default, HomieDomain::Custom(_)) => true,
            (HomieDomain::All, HomieDomain::Custom(_)) => true,
            _ => false,
        }
    }
}

impl ValueMatcher for HomieDomain {

    open spec fn regex_spec(&self, pattern: Seq<char>) -> bool {
        false
    }

    open spec fn matches_spec(
        &self,
        operator: ConditionOperator,
        operand: Option<&ValueSet<Self>>,
    ) -> bool {
        scalar_matches_spec(self, operator, operand)
    }

    fn matches_regex(&self, pattern: &str) -> (r: bool) {
        false
    }

    fn matches(&self, operator: ConditionOperator, operand: Option<&ValueSet<Self>>) -> (r: bool) {
        scalar_matches(self, operator, operand)
    }

    fn matches_literal(&self, other: &Self) -> (r: bool) {
        *self == *other
    }
}

// --- HomieValue ---
/// The string projection of a value: the content of a string or enum value,
/// empty for every other shape.
pub open spec fn value_match_str(v: ValueView) -> Seq<char> {
    match v {
        ValueView::Str(s) => s,
        ValueView::EnumStr(s) => s,
        _ => Seq::<char>::empty(),
    }
}

/// Strict order on values: the empty value sorts below every other value;
/// strings and enum values compare lexicographically, also across the two
/// shapes; integers, booleans, datetimes and durations compare as usual;
/// JSON documents compare by their canonical text; every other pair is
/// unordered.
pub open spec fn value_lt(a: ValueView, b: ValueView) -> bool {
    match (a, b) {
        (ValueView::Empty, ValueView::Empty) => false,
        (ValueView::Empty, _) => true,
        (_, ValueView::Empty) => false,
        (ValueView::Int(x), ValueView::Int(y)) => x < y,
        (ValueView::Str(x), ValueView::Str(y)) => lex_lt(x, y),
        (ValueView::Str(x), ValueView::EnumStr(y)) => lex_lt(x, y),
        (ValueView::EnumStr(x), ValueView::Str(y)) => lex_lt(x, y),
        (ValueView::EnumStr(x), ValueView::EnumStr(y)) => lex_lt(x, y),
        (ValueView::Bool(x), ValueView::Bool(y)) => !x && y,
        (ValueView::DateTime(x), ValueView::DateTime(y)) => x < y,
        (ValueView::Duration(x), ValueView::Duration(y)) => x < y,
        (ValueView::Json(x), ValueView::Json(y)) => lex_lt(x, y),
        _ => false,
    }
}

impl AsMatchStr for HomieValue {
    open spec fn match_str(&self) -> Seq<char> {
        value_match_str(self@)
    }

    fn as_match_str(&self) -> (r: &str) {
        match self {
            HomieValue::String(s) => s.as_str(),
            HomieValue::Enum(s) => s.as_str(),
            _ => empty_match_str(),
        }
    }
}

impl ValueCompare for HomieValue {
    open spec fn val_eq(&self, other: &Self) -> bool {
        self@ == other@
    }

    open spec fn val_lt(&self, other: &Self) -> bool {
        value_lt(self@, other@)
    }

    fn eq_value(&self, other: &Self) -> (r: bool) {
        self.same_value(other)
    }

    fn lt_value(&self, other: &Self) -> (r: bool) {
        match (self, other) {
            (HomieValue::Empty, HomieValue::Empty) => false,
            (HomieValue::Empty, _) => true,
            (_, HomieValue::Empty) => false,
            (HomieValue::Integer(x), HomieValue::Integer(y)) => *x < *y,
            (HomieValue::String(x), HomieValue::String(y)) => str_lex_lt(x.as_str(), y.as_str()),
            (HomieValue::String(x), HomieValue::Enum(y)) => str_lex_lt(x.as_str(), y.as_str()),
            (HomieValue::Enum(x), HomieValue::String(y)) => str_lex_lt(x.as_str(), y.as_str()),
            (HomieValue::Enum(x), HomieValue::Enum(y)) => str_lex_lt(x.as_str(), y.as_str()),
            (HomieValue::Bool(x), HomieValue::Bool(y)) => !*x && *y,
            (HomieValue::DateTime(x), HomieValue::DateTime(y)) => *x < *y,
            (HomieValue::Duration(x), HomieValue::Duration(y)) => *x < *y,
            (HomieValue::JSON(x), HomieValue::JSON(y)) => str_lex_lt(x.as_str(), y.as_str()),
            _ => false,
        }
    }
}

impl ValueMatcher for HomieValue {

    open spec fn regex_spec(&self, pattern: Seq<char>) -> bool {
        regex_match(pattern, value_match_str(self@))
    }

    open spec fn matches_spec(
        &self,
        operator: ConditionOperator,
        operand: Option<&ValueSet<Self>>,
    ) -> bool {
        scalar_matches_spec(self, operator, operand)
    }

    fn matches_regex(&self, pattern: &str) -> (r: bool) {
        regex_is_match(pattern, self.as_match_str())
    }

    fn matches(&self, operator: ConditionOperator, operand: Option<&ValueSet<Self>>) -> (r: bool) {
        scalar_matches(self, operator, operand)
    }

    fn matches_literal(&self, other: &Self) -> (r: bool) {
        self.same_value(other)
    }
}

// --- Vec<T> ---
/// Set-like equality between a value vector `a` and an operand vector `b`:
/// equal lengths and every operand element occurs in `a`.
pub open spec fn vec_set_eq<T: ValueCompare>(a: Seq<T>, b: Seq<T>) -> bool {
    b.len() == a.len() && forall|i: int|
        0 <= i < b.len() ==> seq_contains_match(a, #[trigger] b[i])
}

/// Whether any operand element occurs in the value vector.
pub open spec fn vec_any_shared<T: ValueCompare>(a: Seq<T>, b: Seq<T>) -> bool {
    exists|i: int| 0 <= i < b.len() && seq_contains_match(a, #[trigger] b[i])
}

/// Element-wise, order-sensitive equality of two vectors.
pub open spec fn vec_lit_eq<T: ValueCompare>(a: Seq<T>, b: Seq<T>) -> bool {
    a.len() == b.len() && forall|i: int| 0 <= i < a.len() ==> #[trigger] a[i].val_eq(&b[i])
}

/// The operator semantics of vector values: `Equal` and `NotEqual` compare
/// as sets of equal size, `IncludesAny` and `IncludesNone` test overlap and
/// disjointness, `MatchAlways` holds, every other operator fails.
pub open spec fn vec_matches_spec<T: ValueCompare>(
    v: Seq<T>,
    operator: ConditionOperator,
    operand: Option<&ValueSet<Vec<T>>>,
) -> bool {
    match operator {
        ConditionOperator::Equal => match operand {
            Some(ValueSet::Single(ws)) => vec_set_eq(v, ws@),
            Some(ValueSet::Multiple(vss)) => exists|k: int|
                0 <= k < vss@.len() && vec_set_eq(v, #[trigger] vss@[k]@),
            None => false,
        },
        ConditionOperator::NotEqual => match operand {
            Some(ValueSet::Single(ws)) => !vec_set_eq(v, ws@),
            Some(ValueSet::Multiple(vss)) => forall|k: int|
                0 <= k < vss@.len() ==> !vec_set_eq(v, #[trigger] vss@[k]@),
            None => true,
        },
        ConditionOperator::IncludesAny => match operand {
            Some(ValueSet::Single(ws)) => vec_any_shared(v, ws@),
            Some(ValueSet::Multiple(vss)) => exists|k: int|
                0 <= k < vss@.len() && vec_any_shared(v, #[trigger] vss@[k]@),
            None => false,
        },
        ConditionOperator::IncludesNone => match operand {
            Some(ValueSet::Single(ws)) => !vec_any_shared(v, ws@),
            Some(ValueSet::Multiple(vss)) => forall|k: int|
                0 <= k < vss@.len() ==> !vec_any_shared(v, #[trigger] vss@[k]@),
            None => false,
        },
        ConditionOperator::MatchAlways => true,
        _ => false,
    }
}

/// Decides [`vec_set_eq`].
fn vec_set_eq_exec<T: ValueCompare>(a: &Vec<T>, b: &Vec<T>) -> (r: bool)
    ensures
        r == vec_set_eq(a@, b@),
{
    if b.len() != a.len() {
        return false;
    }
    let mut i: usize = 0;
    while i < b.len()
        invariant
            i <= b@.len(),
            b@.len() == a@.len(),
            forall|j: int| 0 <= j < i ==> seq_contains_match(a@, #[trigger] b@[j]),
        decreases b@.len() - i,
    {
        if !contains_match(a, &b[i]) {
            return false;
        }
        i = i + 1;
    }
    true
}

/// Decides [`vec_any_shared`].
fn vec_any_shared_exec<T: ValueCompare>(a: &Vec<T>, b: &Vec<T>) -> (r: bool)
    ensures
        r == vec_any_shared(a@, b@),
{
    let mut i: usize = 0;
    while i < b.len()
        invariant
            i <= b@.len(),
            forall|j: int| 0 <= j < i ==> !seq_contains_match(a@, #[trigger] b@[j]),
        decreases b@.len() - i,
    {
        if contains_match(a, &b[i]) {
            return true;
        }
        i = i + 1;
    }
    false
}

/// Decides [`vec_lit_eq`].
fn vec_lit_eq_exec<T: ValueCompare>(a: &Vec<T>, b: &Vec<T>) -> (r: bool)
    ensures
        r == vec_lit_eq(a@, b@),
{
    if a.len() != b.len() {
        return false;
    }
    let mut i: usize = 0;
    while i < a.len()
        invariant
            i <= a@.len(),
            a@.len() == b@.len(),
            forall|j: int| 0 <= j < i ==> #[trigger] a@[j].val_eq(&b@[j]),
        decreases a@.len() - i,
    {
        if !a[i].eq_value(&b[i]) {
            return false;
        }
        i = i + 1;
    }
    true
}

/// Decides whether any operand set compares set-equal to the value vector.
fn any_vec_set_eq<T: ValueCompare>(a: &Vec<T>, sets: &Vec<Vec<T>>) -> (r: bool)
    ensures
        r == exists|k: int| 0 <= k < sets@.len() && vec_set_eq(a@, #[trigger] sets@[k]@),
{
    let mut k: usize = 0;
    while k < sets.len()
        invariant
            k <= sets@.len(),
            forall|j: int| 0 <= j < k ==> !vec_set_eq(a@, #[trigger] sets@[j]@),
        decreases sets@.len() - k,
    {
        if vec_set_eq_exec(a, &sets[k]) {
            return true;
        }
        k = k + 1;
    }
    false
}

/// Decides whether any operand set shares an element with the value vector.
fn any_vec_any_shared<T: ValueCompare>(a: &Vec<T>, sets: &Vec<Vec<T>>) -> (r: bool)
    ensures
        r == exists|k: int| 0 <= k < sets@.len() && vec_any_shared(a@, #[trigger] sets@[k]@),
{
    let mut k: usize = 0;
    while k < sets.len()
        invariant
            k <= sets@.len(),
            forall|j: int| 0 <= j < k ==> !vec_any_shared(a@, #[trigger] sets@[j]@),
        decreases sets@.len() - k,
    {
        if vec_any_shared_exec(a, &sets[k]) {
            return true;
        }
        k = k + 1;
    }
    false
}

impl<T: ValueMatcher> AsMatchStr for Vec<T> {
    open spec fn match_str(&self) -> Seq<char> {
        Seq::<char>::empty()
    }

    fn as_match_str(&self) -> (r: &str) {
        empty_match_str()
    }
}

impl<T: ValueCompare> ValueCompare for Vec<T> {
    open spec fn val_eq(&self, other: &Self) -> bool {
        vec_lit_eq(self@, other@)
    }

    open spec fn val_lt(&self, other: &Self) -> bool {
        false
    }

    fn eq_value(&self, other: &Self) -> (r: bool) {
        vec_lit_eq_exec(self, other)
    }

    fn lt_value(&self, other: &Self) -> (r: bool) {
        false
    }
}

impl<T: ValueMatcher> ValueMatcher for Vec<T> {

    open spec fn regex_spec(&self, pattern: Seq<char>) -> bool {
        false
    }

    open spec fn matches_spec(
        &self,
        operator: ConditionOperator,
        operand: Option<&ValueSet<Self>>,
    ) -> bool {
        vec_matches_spec(self@, operator, operand)
    }

    fn matches_regex(&self, pattern: &str) -> (r: bool) {
        false
    }

    fn matches(&self, operator: ConditionOperator, operand: Option<&ValueSet<Self>>) -> (r: bool) {
        match operator {
            ConditionOperator::Equal => match operand {
                Some(ValueSet::Single(ws)) => vec_set_eq_exec(self, ws),
                Some(ValueSet::Multiple(vss)) => any_vec_set_eq(self, vss),
                None => false,
            },
            ConditionOperator::NotEqual => match operand {
                Some(ValueSet::Single(ws)) => !vec_set_eq_exec(self, ws),
                Some(ValueSet::Multiple(vss)) => !any_vec_set_eq(self, vss),
                None => true,
            },
            ConditionOperator::IncludesAny => match operand {
                Some(ValueSet::Single(ws)) => vec_any_shared_exec(self, ws),
                Some(ValueSet::Multiple(vss)) => any_vec_any_shared(self, vss),
                None => false,
            },
            ConditionOperator::IncludesNone => match operand {
                Some(ValueSet::Single(ws)) => !vec_any_shared_exec(self, ws),
                Some(ValueSet::Multiple(vss)) => !any_vec_any_shared(self, vss),
                None => false,
            },
            ConditionOperator::MatchAlways => true,
            _ => false,
        }
    }

    fn matches_literal(&self, other: &Self) -> (r: bool) {
        vec_lit_eq_exec(self, other)
    }
}

} // verus!
