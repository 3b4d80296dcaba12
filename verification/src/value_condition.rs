//! The generic condition DSL: typed predicate evaluation over scalar and
//! vector values.
//!
//! A [`ValueCondition`] is a literal (equality by value semantics), an
//! operator condition over one operand or a set of operands, or a regex
//! pattern (meaningful only for types with a string projection).  The DSL is
//! written once against the [`ValueMatcher`] capability trait, with one
//! implementation per concrete value type.
use crate::text::str_eq;
use vstd::prelude::*;

verus! {

/// What a regex match returns, as a function of the pattern and the text
/// alone.  The verifier knows nothing else about it.
pub uninterp spec fn regex_match(pattern: Seq<char>, text: Seq<char>) -> bool;

/// Relies on `regex::Regex::new` and `regex::Regex::is_match`: whether the
/// text matches the pattern.  A pattern that does not compile matches
/// nothing, mirroring how an invalid pattern behaves in a condition.
#[verifier::external_body]
pub(crate) fn regex_is_match(pattern: &str, text: &str) -> (r: bool)
    ensures
        r == regex_match(pattern@, text@),
{
    regex::Regex::new(pattern).map(|re| re.is_match(text)).unwrap_or(false)
}

/// Returns the empty string slice.
pub fn empty_match_str() -> (r: &'static str)
    ensures
        r@ == Seq::<char>::empty(),
{
    proof {
        reveal_strlit("");
        assert(""@ =~= Seq::<char>::empty());
    }
    ""
}

/// The operators an operator condition can use.
#[derive(Clone, Copy, PartialEq, Eq, Structural, Debug)]
pub enum ConditionOperator {
    Equal,
    Greater,
    Less,
    GreaterOrEqual,
    LessOrEqual,
    NotEqual,
    IncludesAny,
    IncludesNone,
    MatchAlways,
    IsEmpty,
    Exists,
}

/// The protocol text of each operator.
pub open spec fn operator_str(op: ConditionOperator) -> Seq<char> {
    match op {
        ConditionOperator::Equal => "="@,
        ConditionOperator::Greater => ">"@,
        ConditionOperator::Less => "<"@,
        ConditionOperator::GreaterOrEqual => ">="@,
        ConditionOperator::LessOrEqual => "<="@,
        ConditionOperator::NotEqual => "<>"@,
        ConditionOperator::IncludesAny => "includesAny"@,
        ConditionOperator::IncludesNone => "includesNone"@,
        ConditionOperator::MatchAlways => "matchAlways"@,
        ConditionOperator::IsEmpty => "isEmpty"@,
        ConditionOperator::Exists => "exists"@,
    }
}

/// The operator a text names, if any.
pub open spec fn operator_of_str(s: Seq<char>) -> Option<ConditionOperator> {
    if s == "="@ {
        Some(ConditionOperator::Equal)
    } else if s == ">"@ {
        Some(ConditionOperator::Greater)
    } else if s == "<"@ {
        Some(ConditionOperator::Less)
    } else if s == ">="@ {
        Some(ConditionOperator::GreaterOrEqual)
    } else if s == "<="@ {
        Some(ConditionOperator::LessOrEqual)
    } else if s == "<>"@ {
        Some(ConditionOperator::NotEqual)
    } else if s == "includesAny"@ {
        Some(ConditionOperator::IncludesAny)
    } else if s == "includesNone"@ {
        Some(ConditionOperator::IncludesNone)
    } else if s == "matchAlways"@ {
        Some(ConditionOperator::MatchAlways)
    } else if s == "isEmpty"@ {
        Some(ConditionOperator::IsEmpty)
    } else if s == "exists"@ {
        Some(ConditionOperator::Exists)
    } else {
        None
    }
}

impl ConditionOperator {
    /// The operator's protocol text.
    pub fn as_operator_str(&self) -> (r: &str)
        ensures
            r@ == operator_str(*self),
    {
        match self {
            ConditionOperator::Equal => "=",
            ConditionOperator::Greater => ">",
            ConditionOperator::Less => "<",
            ConditionOperator::GreaterOrEqual => ">=",
            ConditionOperator::LessOrEqual => "<=",
            ConditionOperator::NotEqual => "<>",
            ConditionOperator::IncludesAny => "includesAny",
            ConditionOperator::IncludesNone => "includesNone",
            ConditionOperator::MatchAlways => "matchAlways",
            ConditionOperator::IsEmpty => "isEmpty",
            ConditionOperator::Exists => "exists",
        }
    }

    /// Decides [`operator_of_str`].
    pub fn parse_operator(s: &str) -> (r: Option<ConditionOperator>)
        ensures
            r == operator_of_str(s@),
    {
        if str_eq(s, "=") {
            Some(ConditionOperator::Equal)
        } else if str_eq(s, ">") {
            Some(ConditionOperator::Greater)
        } else if str_eq(s, "<") {
            Some(ConditionOperator::Less)
        } else if str_eq(s, ">=") {
            Some(ConditionOperator::GreaterOrEqual)
        } else if str_eq(s, "<=") {
            Some(ConditionOperator::LessOrEqual)
        } else if str_eq(s, "<>") {
            Some(ConditionOperator::NotEqual)
        } else if str_eq(s, "includesAny") {
            Some(ConditionOperator::IncludesAny)
        } else if str_eq(s, "includesNone") {
            Some(ConditionOperator::IncludesNone)
        } else if str_eq(s, "matchAlways") {
            Some(ConditionOperator::MatchAlways)
        } else if str_eq(s, "isEmpty") {
            Some(ConditionOperator::IsEmpty)
        } else if str_eq(s, "exists") {
            Some(ConditionOperator::Exists)
        } else {
            None
        }
    }
}

impl core::str::FromStr for ConditionOperator {
    type Err = ();

    fn from_str(s: &str) -> Result<Self, Self::Err> {
        match ConditionOperator::parse_operator(s) {
            Some(op) => Ok(op),
            None => Err(()),
        }
    }
}

/// Types that expose a string projection used for pattern matching.
pub trait AsMatchStr {
    /// The projected character sequence; empty for types without a
    /// meaningful string form.
    spec fn match_str(&self) -> Seq<char>;

    /// The string slice used for matching.
    fn as_match_str(&self) -> (r: &str)
        ensures
            r@ == self.match_str(),
    ;
}

/// Equality and an optional strict order, each with its spec-level
/// meaning.  The shared scalar operator dispatch is written against this
/// trait alone.
pub trait ValueCompare: Sized {
    /// What equality means for this type.
    spec fn val_eq(&self, other: &Self) -> bool;

    /// Strict order; `false` everywhere for unordered types.
    spec fn val_lt(&self, other: &Self) -> bool;

    /// Decides [`ValueCompare::val_eq`].
    fn eq_value(&self, other: &Self) -> (r: bool)
        ensures
            r == self.val_eq(other),
    ;

    /// Decides [`ValueCompare::val_lt`].
    fn lt_value(&self, other: &Self) -> (r: bool)
        ensures
            r == self.val_lt(other),
    ;
}

/// The capability interface of the condition DSL: equality and order from
/// [`ValueCompare`], a string projection from [`AsMatchStr`], regex
/// matching, and the operator semantics of the type.
pub trait ValueMatcher: AsMatchStr + ValueCompare {
    /// Whether a regex pattern matches this value.
    spec fn regex_spec(&self, pattern: Seq<char>) -> bool;

    /// The meaning of an operator condition on this type.
    spec fn matches_spec(&self, operator: ConditionOperator, operand: Option<&ValueSet<Self>>)
        -> bool;

    /// Decides [`ValueMatcher::regex_spec`].
    fn matches_regex(&self, pattern: &str) -> (r: bool)
        ensures
            r == self.regex_spec(pattern@),
    ;

    /// Decides [`ValueMatcher::matches_spec`].
    fn matches(&self, operator: ConditionOperator, operand: Option<&ValueSet<Self>>) -> (r: bool)
        ensures
            r == self.matches_spec(operator, operand),
    ;

    /// Literal conditions compare by value semantics.
    fn matches_literal(&self, other: &Self) -> (r: bool)
        ensures
            r == self.val_eq(other),
    ;
}

/// The values behind an optional reference, for stating contracts over
/// owned option values.
pub open spec fn opt_deref<T>(o: Option<&T>) -> Option<T> {
    match o {
        Some(v) => Some(*v),
        None => None,
    }
}

/// The operand of an operator condition: a single value or several.
#[derive(Debug)]
pub enum ValueSet<T> {
    Single(T),
    Multiple(Vec<T>),
}

impl<T> ValueSet<T> {
    /// The single operand, if there is exactly one.
    pub fn value(&self) -> (r: Option<&T>)
        ensures
            match self {
                ValueSet::Single(v) => r == Some(v),
                ValueSet::Multiple(_) => r is None,
            },
    {
        match self {
            ValueSet::Single(v) => Some(v),
            ValueSet::Multiple(_) => None,
        }
    }
}

/// Whether some element of `vs` equals `x` under the type's equality.
pub open spec fn seq_contains_match<T: ValueCompare>(vs: Seq<T>, x: T) -> bool {
    exists|i: int| 0 <= i < vs.len() && #[trigger] vs[i].val_eq(&x)
}

/// Decides [`seq_contains_match`].
pub fn contains_match<T: ValueCompare>(vs: &Vec<T>, x: &T) -> (r: bool)
    ensures
        r == seq_contains_match(vs@, *x),
{
    let mut i: usize = 0;
    while i < vs.len()
        invariant
            i <= vs@.len(),
            forall|j: int| 0 <= j < i ==> !(#[trigger] vs@[j].val_eq(x)),
        decreases vs@.len() - i,
    {
        if vs[i].eq_value(x) {
            return true;
        }
        i = i + 1;
    }
    false
}

/// The operator semantics shared by every scalar type: `Equal` and
/// `IncludesAny` test membership, `NotEqual` and `IncludesNone` its negation,
/// the order operators apply to a single operand, `MatchAlways` and `Exists`
/// hold, `IsEmpty` fails (the value is present).
pub open spec fn scalar_matches_spec<T: ValueCompare>(
    v: &T,
    operator: ConditionOperator,
    operand: Option<&ValueSet<T>>,
) -> bool {
    match operator {
        ConditionOperator::Equal | ConditionOperator::IncludesAny => match operand {
            Some(ValueSet::Single(w)) => v.val_eq(w),
            Some(ValueSet::Multiple(ws)) => seq_contains_match(ws@, *v),
            None => false,
        },
        ConditionOperator::NotEqual | ConditionOperator::IncludesNone => match operand {
            Some(ValueSet::Single(w)) => !v.val_eq(w),
            Some(ValueSet::Multiple(ws)) => !seq_contains_match(ws@, *v),
            None => false,
        },
        ConditionOperator::Greater => match operand {
            Some(ValueSet::Single(w)) => w.val_lt(v),
            _ => false,
        },
        ConditionOperator::Less => match operand {
            Some(ValueSet::Single(w)) => v.val_lt(w),
            _ => false,
        },
        ConditionOperator::GreaterOrEqual => match operand {
            Some(ValueSet::Single(w)) => v.val_eq(w) || w.val_lt(v),
            _ => false,
        },
        ConditionOperator::LessOrEqual => match operand {
            Some(ValueSet::Single(w)) => v.val_eq(w) || v.val_lt(w),
            _ => false,
        },
        ConditionOperator::MatchAlways => true,
        ConditionOperator::IsEmpty => false,
        ConditionOperator::Exists => true,
    }
}

/// Decides [`scalar_matches_spec`]; every scalar implementation of
/// [`ValueMatcher::matches`] delegates here.
pub fn scalar_matches<T: ValueCompare>(
    v: &T,
    operator: ConditionOperator,
    operand: Option<&ValueSet<T>>,
) -> (r: bool)
    ensures
        r == scalar_matches_spec(v, operator, operand),
{
    match operator {
        ConditionOperator::Equal | ConditionOperator::IncludesAny => match operand {
            Some(ValueSet::Single(w)) => v.eq_value(w),
            Some(ValueSet::Multiple(ws)) => contains_match(ws, v),
            None => false,
        },
        ConditionOperator::NotEqual | ConditionOperator::IncludesNone => match operand {
            Some(ValueSet::Single(w)) => !v.eq_value(w),
            Some(ValueSet::Multiple(ws)) => !contains_match(ws, v),
            None => false,
        },
        ConditionOperator::Greater => match operand {
            Some(ValueSet::Single(w)) => w.lt_value(v),
            _ => false,
        },
        ConditionOperator::Less => match operand {
            Some(ValueSet::Single(w)) => v.lt_value(w),
            _ => false,
        },
        ConditionOperator::GreaterOrEqual => match operand {
            Some(ValueSet::Single(w)) => v.eq_value(w) || w.lt_value(v),
            _ => false,
        },
        ConditionOperator::LessOrEqual => match operand {
            Some(ValueSet::Single(w)) => v.eq_value(w) || v.lt_value(w),
            _ => false,
        },
        ConditionOperator::MatchAlways => true,
        ConditionOperator::IsEmpty => false,
        ConditionOperator::Exists => true,
    }
}

/// A regex pattern condition.
#[derive(Debug)]
pub struct Pattern {
    pub pattern: String,
}

impl Clone for Pattern {
    fn clone(&self) -> (r: Self)
        ensures
            r.pattern@ == self.pattern@,
    {
        Pattern { pattern: self.pattern.clone() }
    }
}

/// An operator paired with its optional operand set.
#[derive(Debug)]
pub struct ValueOperatorCondition<T> {
    pub operator: ConditionOperator,
    pub value: Option<ValueSet<T>>,
}

impl<T: ValueMatcher> ValueOperatorCondition<T> {
    /// The meaning of this condition on a present value.
    pub open spec fn eval_spec(&self, value: &T) -> bool {
        value.matches_spec(
            self.operator,
            match &self.value {
                Some(s) => Some(s),
                None => None,
            },
        )
    }

    /// The meaning of this condition on an optional value: `IsEmpty`,
    /// `Exists` and `MatchAlways` look only at presence; every other
    /// operator fails on an absent value.
    pub open spec fn eval_option_spec(&self, value: Option<T>) -> bool {
        match self.operator {
            ConditionOperator::IsEmpty => value is None,
            ConditionOperator::Exists => value is Some,
            ConditionOperator::MatchAlways => true,
            _ => match value {
                Some(v) => self.eval_spec(&v),
                None => false,
            },
        }
    }

    /// Evaluates the condition against a value.
    pub fn evaluate(&self, check_value: &T) -> (r: bool)
        ensures
            r == self.eval_spec(check_value),
    {
        check_value.matches(self.operator, self.value.as_ref())
    }

    /// Evaluates the condition against an optional value.
    pub fn evaluate_option(&self, check_value: Option<&T>) -> (r: bool)
        ensures
            r == self.eval_option_spec(opt_deref(check_value)),
    {
        match self.operator {
            ConditionOperator::IsEmpty => check_value.is_none(),
            ConditionOperator::Exists => check_value.is_some(),
            ConditionOperator::MatchAlways => true,
            _ => match check_value {
                Some(val) => self.evaluate(val),
                None => false,
            },
        }
    }
}

/// A condition over values of type `T`: a literal, an operator condition,
/// or a regex pattern.
#[derive(Debug)]
pub enum ValueCondition<T> {
    Value(T),
    Operator(ValueOperatorCondition<T>),
    Pattern(Pattern),
}

impl<T: ValueMatcher> ValueCondition<T> {
    /// The meaning of this condition on a present value.
    pub open spec fn eval_spec(&self, value: &T) -> bool {
        match self {
            ValueCondition::Value(literal) => value.val_eq(literal),
            ValueCondition::Operator(op_condition) => op_condition.eval_spec(value),
            ValueCondition::Pattern(pattern) => value.regex_spec(pattern.pattern@),
        }
    }

    /// The meaning of this condition on an optional value; a literal or
    /// pattern condition fails on an absent value.
    pub open spec fn eval_option_spec(&self, value: Option<T>) -> bool {
        match self {
            ValueCondition::Operator(op_condition) => op_condition.eval_option_spec(value),
            _ => match value {
                Some(v) => self.eval_spec(&v),
                None => false,
            },
        }
    }

    /// Evaluates the condition against a value.
    pub fn evaluate(&self, value: &T) -> (r: bool)
        ensures
            r == self.eval_spec(value),
    {
        match self {
            ValueCondition::Value(literal) => value.matches_literal(literal),
            ValueCondition::Operator(op_condition) => op_condition.evaluate(value),
            ValueCondition::Pattern(pattern) => value.matches_regex(pattern.pattern.as_str()),
        }
    }

    /// Evaluates the condition against an optional value.
    pub fn evaluate_option(&self, value: Option<&T>) -> (r: bool)
        ensures
            r == self.eval_option_spec(opt_deref(value)),
    {
        match self {
            ValueCondition::Value(literal) => match value {
                Some(v) => v.matches_literal(literal),
                None => false,
            },
            ValueCondition::Operator(op_condition) => op_condition.evaluate_option(value),
            ValueCondition::Pattern(pattern) => match value {
                Some(v) => v.matches_regex(pattern.pattern.as_str()),
                None => false,
            },
        }
    }

    /// The literal or single operand this condition compares against, if
    /// there is exactly one.
    pub open spec fn value_spec(&self) -> Option<T> {
        match self {
            ValueCondition::Value(literal) => Some(*literal),
            ValueCondition::Operator(oc) => match oc.value {
                Some(ValueSet::Single(v)) => Some(v),
                _ => None,
            },
            ValueCondition::Pattern(_) => None,
        }
    }

    /// Decides [`ValueCondition::value_spec`].
    pub fn value(&self) -> (r: Option<&T>)
        ensures
            opt_deref(r) == self.value_spec(),
    {
        match self {
            ValueCondition::Value(literal) => Some(literal),
            ValueCondition::Operator(op_condition) => match &op_condition.value {
                Some(vs) => vs.value(),
                None => None,
            },
            ValueCondition::Pattern(_) => None,
        }
    }
}

} // verus!
