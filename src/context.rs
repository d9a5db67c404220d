//! The compilation context shared by the stages, and the unique name generator.
use vstd::prelude::*;

use crate::diagnostics::{Diagnostic, DiagV, diags_view};

verus! {

/// The character of a decimal digit.
pub open spec fn digit_char(d: nat) -> char {
    if d == 0 { '0' }
    else if d == 1 { '1' }
    else if d == 2 { '2' }
    else if d == 3 { '3' }
    else if d == 4 { '4' }
    else if d == 5 { '5' }
    else if d == 6 { '6' }
    else if d == 7 { '7' }
    else if d == 8 { '8' }
    else { '9' }
}

/// The decimal notation of `n`, without leading zeros.
pub open spec fn decimal(n: nat) -> Seq<char>
    decreases n,
{
    if n < 10 {
        seq![digit_char(n)]
    } else {
        decimal(n / 10).push(digit_char(n % 10))
    }
}

/// The synthetic name minted for surface name `name` when the counter stands at `n`.
pub open spec fn fresh_name(name: Seq<char>, n: nat) -> Seq<char> {
    name + seq!['.'] + decimal(n)
}

fn digit_str(d: u64) -> (r: &'static str)
    requires
        d < 10,
    ensures
        r@ == seq![digit_char(d as nat)],
{
    if d == 0 {
        proof { reveal_strlit("0"); }
        "0"
    } else if d == 1 {
        proof { reveal_strlit("1"); }
        "1"
    } else if d == 2 {
        proof { reveal_strlit("2"); }
        "2"
    } else if d == 3 {
        proof { reveal_strlit("3"); }
        "3"
    } else if d == 4 {
        proof { reveal_strlit("4"); }
        "4"
    } else if d == 5 {
        proof { reveal_strlit("5"); }
        "5"
    } else if d == 6 {
        proof { reveal_strlit("6"); }
        "6"
    } else if d == 7 {
        proof { reveal_strlit("7"); }
        "7"
    } else if d == 8 {
        proof { reveal_strlit("8"); }
        "8"
    } else {
        proof { reveal_strlit("9"); }
        "9"
    }
}

/// Appends the decimal notation of `n` to `s`.
pub fn push_decimal(s: &mut String, n: u64)
    ensures
        final(s)@ == old(s)@ + decimal(n as nat),
    decreases n,
{
    if n >= 10 {
        push_decimal(s, n / 10);
    }
    let d = digit_str(n % 10);
    s.append(d);
    proof {
        if n < 10 {
            assert(decimal(n as nat) =~= seq![digit_char(n as nat)]);
        }
        assert(final(s)@ =~= old(s)@ + decimal(n as nat));
    }
}

/// Mints fresh names from a monotonic counter.
#[derive(Debug)]
pub struct TempGenerator {
    pub counter: u64,
}

impl TempGenerator {
    pub fn new() -> (r: TempGenerator)
        ensures
            r.counter == 0,
    {
        TempGenerator { counter: 0 }
    }

    /// A fresh name derived from `name`: the name, a dot, and the counter in decimal.
    pub fn temp_from(&mut self, name: String) -> (r: String)
        requires
            old(self).counter < u64::MAX,
        ensures
            r@ == fresh_name(name@, old(self).counter as nat),
            final(self).counter == old(self).counter + 1,
    {
        let mut r = name;
        proof { reveal_strlit("."); }
        r.append(".");
        push_decimal(&mut r, self.counter);
        self.counter = self.counter + 1;
        r
    }
}

/// State threaded through one compilation: diagnostics, the name counter and
/// the depth of loop nesting.
#[derive(Debug)]
pub struct SemanticContext {
    pub diagnostics: Vec<Diagnostic>,
    pub temp_gen: TempGenerator,
    pub loop_depth: u64,
}

impl SemanticContext {
    pub fn new() -> (r: SemanticContext)
        ensures
            r.diagnostics@.len() == 0,
            r.temp_gen.counter == 0,
            r.loop_depth == 0,
    {
        SemanticContext { diagnostics: Vec::new(), temp_gen: TempGenerator::new(), loop_depth: 0 }
    }

    pub open spec fn diags(&self) -> Seq<DiagV> {
        diags_view(self.diagnostics@)
    }

    pub open spec fn counter(&self) -> nat {
        self.temp_gen.counter as nat
    }

    /// Appends a diagnostic.
    pub fn report(&mut self, d: Diagnostic)
        ensures
            final(self).diags() == old(self).diags().push(d@),
            final(self).temp_gen == old(self).temp_gen,
            final(self).loop_depth == old(self).loop_depth,
    {
        self.diagnostics.push(d);
        assert(final(self).diags() =~= old(self).diags().push(d@));
    }
}

} // verus!
