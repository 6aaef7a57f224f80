//! Lists of one or more values, with a separator between them.

use vstd::prelude::*;
use cssparser::Parser;
use crate::cursor::{comma_separated, position, try_parse};
use crate::parser::{Parse, ParserContext};
use crate::style_traits::{Separator, StyleParseError};
use crate::values::SlashToken;

verus! {

/// The values that a list has yielded so far, in the order of the input, and
/// the position in the input that the cursor had reached behind the last of
/// them.
///
/// There is always at least one value. A further value is taken in only
/// where the cursor has moved on since the last one, so that the positions
/// grow strictly: a parser that yields values without consuming input
/// cannot keep a list going for ever.
pub struct OneOrMore<T> {
    items: Vec<T>,
    reach: usize,
}

/// How a list goes on after one more attempt on the input.
pub enum Step<T, E> {
    /// The list goes on, with these values.
    More(OneOrMore<T>),
    /// The list is over: it has yielded these values, or has failed.
    End(Result<Vec<T>, E>),
}

impl<T> OneOrMore<T> {
    /// The values, first to last.
    pub closed spec fn view(&self) -> Seq<T> {
        self.items@
    }

    /// The position behind the last value.
    pub closed spec fn reach(&self) -> usize {
        self.reach
    }

    /// There is at least one value.
    pub open spec fn wf(&self) -> bool {
        self@.len() >= 1
    }

    /// The list of `item` alone, with the cursor at `position` behind it.
    pub fn first(item: T, position: usize) -> (list: Self)
        ensures
            list.wf(),
            list@ == seq![item],
            list.reach() == position,
    {
        let mut items: Vec<T> = Vec::new();
        items.push(item);
        OneOrMore { items, reach: position }
    }

    /// Take in `item`, behind which the cursor stands at `position`, if the
    /// cursor has moved on since the last value; else leave the list as it is.
    pub fn accept(&mut self, item: T, position: usize) -> (accepted: bool)
        requires
            old(self).wf(),
        ensures
            final(self).wf(),
            accepted <==> position > old(self).reach(),
            accepted ==> final(self)@ == old(self)@.push(item) && final(self).reach() == position,
            !accepted ==> final(self)@ == old(self)@ && final(self).reach() == old(self).reach(),
    {
        if position > self.reach {
            self.items.push(item);
            self.reach = position;
            true
        } else {
            false
        }
    }

    /// The values, as a vector.
    pub fn into_items(self) -> (items: Vec<T>)
        requires
            self.wf(),
        ensures
            items@ == self@,
            items@.len() >= 1,
    {
        self.items
    }

    /// The list as it stands after the attempt at its first value, behind
    /// which the cursor stands at `position`: the list of that value alone,
    /// or the failure of the attempt. There is no empty list.
    pub fn begin<E>(outcome: Result<T, E>, position: usize) -> (r: Result<Self, E>)
        ensures
            outcome matches Ok(item) ==> (r matches Ok(list) && list.wf() && list@ == seq![item]
                && list.reach() == position),
            outcome matches Err(e) ==> r == Err::<Self, E>(e),
    {
        match outcome {
            Ok(item) => Ok(OneOrMore::first(item, position)),
            Err(e) => Err(e),
        }
    }

    /// The step after the attempt at a further value that the list can do
    /// without, behind which the cursor stands at `position`.
    ///
    /// A value that moved the cursor on is taken in and the list goes on.
    /// Else the list is over with the values that it has: the failure of
    /// the attempt is no failure of the list.
    pub fn with_optional<F, E>(self, outcome: Result<T, F>, position: usize) -> (step: Step<T, E>)
        requires
            self.wf(),
        ensures
            outcome matches Ok(item) ==> (position > self.reach() ==> (step matches Step::More(list)
                && list.wf() && list@ == self@.push(item) && list.reach() == position)),
            !(outcome is Ok && position > self.reach()) ==> (step matches Step::End(Ok(items))
                && items@ == self@),
    {
        let mut list = self;
        match outcome {
            Ok(item) => {
                if list.accept(item, position) {
                    Step::More(list)
                } else {
                    Step::End(Ok(list.into_items()))
                }
            },
            Err(_) => Step::End(Ok(list.into_items())),
        }
    }

    /// The step after the attempt at a further value that the list cannot
    /// do without, behind which the cursor stands at `position`.
    ///
    /// A value that moved the cursor on is taken in and the list goes on; one
    /// that did not ends the list with the values that it has. The failure
    /// of the attempt is the failure of the list.
    pub fn with_required<E>(self, outcome: Result<T, E>, position: usize) -> (step: Step<T, E>)
        requires
            self.wf(),
        ensures
            outcome matches Ok(item) ==> (position > self.reach() ==> (step matches Step::More(list)
                && list.wf() && list@ == self@.push(item) && list.reach() == position)),
            outcome is Ok && position <= self.reach() ==> (step matches Step::End(Ok(items))
                && items@ == self@),
            outcome matches Err(e) ==> step == Step::<T, E>::End(Err(e)),
    {
        let mut list = self;
        match outcome {
            Ok(item) => {
                if list.accept(item, position) {
                    Step::More(list)
                } else {
                    Step::End(Ok(list.into_items()))
                }
            },
            Err(e) => Step::End(Err(e)),
        }
    }

    /// The step after the search for a separator behind the last value.
    ///
    /// Where one was found the list goes on as it is; where none was, the
    /// list is over with the values that it has.
    pub fn after_separator<S, F, E>(self, outcome: Result<S, F>) -> (step: Step<T, E>)
        requires
            self.wf(),
        ensures
            outcome is Ok ==> step == Step::<T, E>::More(self),
            outcome is Err ==> (step matches Step::End(Ok(items)) && items@ == self@),
    {
        match outcome {
            Ok(_) => Step::More(self),
            Err(_) => Step::End(Ok(self.into_items())),
        }
    }
}

impl Separator {
    /// Parse one or more values of `T` with this separator between them.
    ///
    /// The values come in the order of the input. The failure of the first
    /// value is the failure of the list: there is no empty list.
    ///
    /// - `Comma`: each value has the input up to the next comma for itself,
    ///   and the list fails where a value fails or leaves some of that input.
    /// - `Space`: the list ends before the first value that fails, with the
    ///   cursor put back to where that value began.
    /// - `Slash`: the list ends where no slash follows a value, and fails
    ///   where the value behind a slash fails.
    pub fn parse<'i, 't, T: Parse>(
        self,
        context: &ParserContext,
        input: &mut Parser<'i, 't>,
    ) -> (r: Result<Vec<T>, StyleParseError<'i>>)
        ensures
            r matches Ok(items) ==> items@.len() >= 1,
    {
        match self {
            Separator::Comma => comma_separated::<T>(context, input),
            Separator::Space => parse_space_separated::<T>(context, input),
            Separator::Slash => parse_slash_separated::<T>(context, input),
        }
    }
}

/// Parse one or more values of `T` that follow each other, with or without
/// whitespace between them.
fn parse_space_separated<'i, 't, T: Parse>(
    context: &ParserContext,
    input: &mut Parser<'i, 't>,
) -> (r: Result<Vec<T>, StyleParseError<'i>>)
    ensures
        r matches Ok(items) ==> items@.len() >= 1,
{
    input.skip_whitespace();
    let first = T::parse(context, input);
    let mut list = match OneOrMore::begin(first, position(input)) {
        Ok(list) => list,
        Err(e) => {
            return Err(e);
        },
    };
    loop
        invariant
            list.wf(),
        decreases usize::MAX - list.reach(),
    {
        input.skip_whitespace();
        let further = try_parse::<T>(context, input);
        match list.with_optional(further, position(input)) {
            Step::More(longer) => {
                list = longer;
            },
            Step::End(r) => {
                return r;
            },
        }
    }
}

/// Parse one or more values of `T` with a slash between each two.
fn parse_slash_separated<'i, 't, T: Parse>(
    context: &ParserContext,
    input: &mut Parser<'i, 't>,
) -> (r: Result<Vec<T>, StyleParseError<'i>>)
    ensures
        r matches Ok(items) ==> items@.len() >= 1,
{
    let first = T::parse(context, input);
    let mut list = match OneOrMore::begin(first, position(input)) {
        Ok(list) => list,
        Err(e) => {
            return Err(e);
        },
    };
    loop
        invariant
            list.wf(),
        decreases usize::MAX - list.reach(),
    {
        let slash = try_parse::<SlashToken>(context, input);
        match list.after_separator(slash) {
            Step::More(same) => {
                list = same;
            },
            Step::End(r) => {
                return r;
            },
        }
        let further = T::parse(context, input);
        match list.with_required(further, position(input)) {
            Step::More(longer) => {
                list = longer;
            },
            Step::End(r) => {
                return r;
            },
        }
    }
}

} // verus!
