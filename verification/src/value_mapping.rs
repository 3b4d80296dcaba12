//! Ordered lists of conditional value transforms: each mapping pairs an
//! optional condition with a target value, evaluated in declaration order
//! with the first applying mapping winning.
use crate::value_condition::{ValueCondition, ValueMatcher};
use vstd::pervasive::cloned;
use vstd::prelude::*;

verus! {

/// The outcome of applying a mapping: the mapped target value, or the
/// original value when no mapping applied.
#[derive(Debug)]
pub enum MappingResult<FROM, TO> {
    Mapped(TO),
    Unmapped(FROM),
}

impl<FROM, TO> MappingResult<FROM, TO> {
    /// Whether no mapping applied.
    pub fn is_unmapped(&self) -> (r: bool)
        ensures
            r == (self is Unmapped),
    {
        match self {
            Self::Mapped(_) => false,
            Self::Unmapped(_) => true,
        }
    }

    /// Whether a mapping applied.
    pub fn is_mapped(&self) -> (r: bool)
        ensures
            r == (self is Mapped),
    {
        match self {
            Self::Mapped(_) => true,
            Self::Unmapped(_) => false,
        }
    }

    /// The mapped value, if any.
    pub fn into_option(self) -> (r: Option<TO>)
        ensures
            match self {
                MappingResult::Mapped(v) => r == Some(v),
                MappingResult::Unmapped(_) => r is None,
            },
    {
        match self {
            MappingResult::Mapped(v) => Some(v),
            MappingResult::Unmapped(_) => None,
        }
    }

    /// Wraps both sides in `Option`, keeping which side applied.
    pub fn into_option_wrap(self) -> (r: MappingResult<Option<FROM>, Option<TO>>)
        ensures
            match self {
                MappingResult::Mapped(v) => r == MappingResult::<Option<FROM>, Option<TO>>::Mapped(
                    Some(v),
                ),
                MappingResult::Unmapped(v) => r == MappingResult::<
                    Option<FROM>,
                    Option<TO>,
                >::Unmapped(Some(v)),
            },
    {
        match self {
            MappingResult::Mapped(v) => MappingResult::Mapped(Some(v)),
            MappingResult::Unmapped(v) => MappingResult::Unmapped(Some(v)),
        }
    }

    /// A result borrowing the payload of this one.
    pub fn as_ref(&self) -> (r: MappingResult<&FROM, &TO>)
        ensures
            match self {
                MappingResult::Mapped(v) => r matches MappingResult::Mapped(w) && w == v,
                MappingResult::Unmapped(v) => r matches MappingResult::Unmapped(w) && w == v,
            },
    {
        match self {
            MappingResult::Mapped(v) => MappingResult::Mapped(v),
            MappingResult::Unmapped(v) => MappingResult::Unmapped(v),
        }
    }
}

impl<FROM: Clone, TO: Clone> MappingResult<&FROM, &TO> {
    /// Clones the borrowed payload into an owned result.
    pub fn cloned(self) -> (r: MappingResult<FROM, TO>)
        ensures
            (self is Mapped) == (r is Mapped),
            self matches MappingResult::Mapped(v) ==> (r matches MappingResult::Mapped(w)
                && cloned(*v, w)),
            self matches MappingResult::Unmapped(v) ==> (r matches MappingResult::Unmapped(w)
                && cloned(*v, w)),
    {
        match self {
            MappingResult::Mapped(v) => MappingResult::Mapped(v.clone()),
            MappingResult::Unmapped(v) => MappingResult::Unmapped(v.clone()),
        }
    }
}

impl<FROM, TO> MappingResult<FROM, TO> where FROM: Into<TO> {
    /// The mapped value, or the original converted into the target type.
    pub fn unwrap(self) -> (r: TO)
        ensures
            self matches MappingResult::Mapped(v) ==> r == v,
            self matches MappingResult::Unmapped(v) ==> call_ensures(
                <FROM as Into<TO>>::into,
                (v,),
                r,
            ),
    {
        match self {
            MappingResult::Mapped(v) => v,
            MappingResult::Unmapped(v) => v.into(),
        }
    }
}

/// One conditional transform: if `from` is absent or holds of the value,
/// the mapping produces `to`.
#[derive(Debug)]
pub struct ValueMapping<FROM, TO> {
    pub from: Option<ValueCondition<FROM>>,
    pub to: TO,
}

impl<FROM: ValueMatcher, TO> ValueMapping<FROM, TO> {
    /// Whether this mapping applies to the value: no condition, or the
    /// condition holds.
    pub open spec fn applies(&self, value: &FROM) -> bool {
        match self.from {
            None => true,
            Some(c) => c.eval_spec(value),
        }
    }

    /// `Mapped(to)` if the mapping applies, else `Unmapped(value)`.
    pub fn map_to<'a>(&'a self, value: &'a FROM) -> (r: MappingResult<&'a FROM, &'a TO>)
        ensures
            self.applies(value) ==> (r matches MappingResult::Mapped(w) && w == &self.to),
            !self.applies(value) ==> (r matches MappingResult::Unmapped(w) && w == value),
    {
        match &self.from {
            None => MappingResult::Mapped(&self.to),
            Some(cond) => if cond.evaluate(value) {
                MappingResult::Mapped(&self.to)
            } else {
                MappingResult::Unmapped(value)
            },
        }
    }
}

/// The target of the first mapping in the list that applies to the value.
pub open spec fn list_map_result<FROM: ValueMatcher, TO>(
    s: Seq<ValueMapping<FROM, TO>>,
    value: FROM,
) -> Option<TO>
    decreases s.len(),
{
    if s.len() == 0 {
        None
    } else if s[0].applies(&value) {
        Some(s[0].to)
    } else {
        list_map_result(s.drop_first(), value)
    }
}

/// An ordered list of mappings, scanned linearly; the first mapping that
/// applies wins.
#[derive(Debug)]
pub struct ValueMappingList<FROM, TO>(pub Vec<ValueMapping<FROM, TO>>);

impl<FROM: ValueMatcher, TO> ValueMappingList<FROM, TO> {
    /// The first applying mapping's target, or `Unmapped(value)` when none
    /// applies.
    pub fn map_to<'a>(&'a self, value: &'a FROM) -> (r: MappingResult<&'a FROM, &'a TO>)
        ensures
            match list_map_result(self.0@, *value) {
                Some(t) => r matches MappingResult::Mapped(w) && *w == t,
                None => r matches MappingResult::Unmapped(w) && w == value,
            },
    {
        let mut i: usize = 0;
        proof {
            assert(self.0@.skip(0) =~= self.0@);
        }
        loop
            invariant
                i <= self.0@.len(),
                list_map_result(self.0@, *value) == list_map_result(
                    self.0@.skip(i as int),
                    *value,
                ),
            decreases self.0@.len() - i,
        {
            if i == self.0.len() {
                return MappingResult::Unmapped(value);
            }
            let mapping = &self.0[i];
            let applies = match &mapping.from {
                None => true,
                Some(cond) => cond.evaluate(value),
            };
            if applies {
                return MappingResult::Mapped(&mapping.to);
            }
            proof {
                assert(self.0@.skip(i as int).drop_first() =~= self.0@.skip(i + 1));
            }
            i = i + 1;
        }
    }
}

impl<FROM, TO> Default for ValueMappingList<FROM, TO> {
    /// The empty mapping list.
    fn default() -> (r: Self)
        ensures
            r.0@.len() == 0,
    {
        ValueMappingList(Vec::new())
    }
}

/// A bidirectional pair of mapping lists for round-trip value translation:
/// one list for inbound values, an independent one for outbound values.
#[derive(Debug)]
pub struct ValueMappingIO<IN, OUT> {
    pub input: ValueMappingList<OUT, IN>,
    pub output: ValueMappingList<IN, OUT>,
}

impl<IN: ValueMatcher, OUT: ValueMatcher> ValueMappingIO<IN, OUT> {
    /// Translates an inbound value through the input list.
    pub fn map_input<'a>(&'a self, value: &'a OUT) -> (r: MappingResult<&'a OUT, &'a IN>)
        ensures
            match list_map_result(self.input.0@, *value) {
                Some(t) => r matches MappingResult::Mapped(w) && *w == t,
                None => r matches MappingResult::Unmapped(w) && w == value,
            },
    {
        self.input.map_to(value)
    }

    /// Translates an outbound value through the output list.
    pub fn map_ouput<'a>(&'a self, value: &'a IN) -> (r: MappingResult<&'a IN, &'a OUT>)
        ensures
            match list_map_result(self.output.0@, *value) {
                Some(t) => r matches MappingResult::Mapped(w) && *w == t,
                None => r matches MappingResult::Unmapped(w) && w == value,
            },
    {
        self.output.map_to(value)
    }
}

} // verus!
