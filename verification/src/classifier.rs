//! Classification of integers by an ordered table of divisibility rules.
//!
//! The first rule whose divisor divides the number decides the label; labels
//! are never combined, so a multiple of both 3 and 5 is "Fizz".

use crate::decimal::{decimal, to_decimal};
use vstd::arithmetic::div_mod::{lemma_fundamental_div_mod, lemma_fundamental_div_mod_converse};
use vstd::prelude::*;

verus! {

/// One rule of the table: a positive divisor and the label it gives.
#[derive(Clone, Copy, Debug, PartialEq, Eq)]
pub struct StringToNum {
    pub string: &'static str,
    pub num: i32,
}

/// What a number is classified as.
#[derive(Clone, Copy, Debug, PartialEq, Eq)]
pub enum FizzBuzz {
    /// A rule's divisor divides the number; holds that rule's label.
    Dividable(&'static str),
    /// No rule applies; holds the number itself.
    Unmatched(i32),
}

/// The mathematical value of a [`FizzBuzz`].
pub enum Outcome {
    Matched(Seq<char>),
    Unmatched(int),
}

impl View for StringToNum {
    type V = (int, Seq<char>);

    open spec fn view(&self) -> (int, Seq<char>) {
        (self.num as int, self.string@)
    }
}

impl View for FizzBuzz {
    type V = Outcome;

    open spec fn view(&self) -> Outcome {
        match *self {
            FizzBuzz::Dividable(label) => Outcome::Matched(label@),
            FizzBuzz::Unmatched(value) => Outcome::Unmatched(value as int),
        }
    }
}

/// The fixed rule table, in evaluation order: (divisor, label).
pub open spec fn rule_table() -> Seq<(int, Seq<char>)> {
    seq![(3int, "Fizz"@), (5int, "Buzz"@)]
}

/// The label of the first rule in `rules` whose divisor divides `n`.
pub open spec fn first_match(rules: Seq<(int, Seq<char>)>, n: int) -> Option<Seq<char>>
    decreases rules.len(),
{
    if rules.len() == 0 {
        None
    } else if n % rules[0].0 == 0 {
        Some(rules[0].1)
    } else {
        first_match(rules.drop_first(), n)
    }
}

/// The outcome of classifying `n` against `rules`.
pub open spec fn classify_with(rules: Seq<(int, Seq<char>)>, n: int) -> Outcome {
    match first_match(rules, n) {
        Some(label) => Outcome::Matched(label),
        None => Outcome::Unmatched(n),
    }
}

/// The outcome of classifying `n` against the fixed table.
pub open spec fn classify(n: int) -> Outcome {
    classify_with(rule_table(), n)
}

/// The views of a sequence of rules.
pub open spec fn rules_view(rules: Seq<StringToNum>) -> Seq<(int, Seq<char>)> {
    rules.map_values(|r: StringToNum| r@)
}

/// The text of the output line for an outcome: the label, or the number in
/// decimal notation.
pub open spec fn line_of(outcome: Outcome) -> Seq<char> {
    match outcome {
        Outcome::Matched(label) => label,
        Outcome::Unmatched(value) => decimal(value),
    }
}

/// A multiple of `d` stays one when negated.
proof fn lemma_multiple_negated(x: int, d: int)
    requires
        d > 0,
        x % d == 0,
    ensures
        (-x) % d == 0,
{
    let q = x / d;
    lemma_fundamental_div_mod(x, d);
    assert(-x == (-q) * d + 0) by (nonlinear_arith)
        requires
            x == d * q + 0,
    ;
    lemma_fundamental_div_mod_converse(-x, d, -q, 0);
}

impl StringToNum {
    /// A rule is well formed when its divisor is positive.
    pub open spec fn wf(&self) -> bool {
        self.num > 0
    }

    /// Whether this rule's divisor evenly divides `num`.
    pub fn divides(&self, num: i32) -> (b: bool)
        requires
            self.wf(),
        ensures
            b == (num as int % self.num as int == 0),
    {
        proof {
            let x = num as int;
            let d = self.num as int;
            if x % d == 0 {
                lemma_multiple_negated(x, d);
            }
            if (-x) % d == 0 {
                lemma_multiple_negated(-x, d);
            }
            assert(x * -1 == -x);
            assert(0int % d == 0 && 0 <= x % d < d && 0 <= (-x) % d < d) by (nonlinear_arith)
                requires
                    d > 0,
            ;
        }
        match num.checked_rem(self.num) {
            Some(r) => r == 0,
            None => false,
        }
    }
}

impl FizzBuzz {
    /// The text of the output line for this outcome.
    pub fn line(&self) -> (s: String)
        ensures
            s@ == line_of(self@),
    {
        match *self {
            FizzBuzz::Dividable(label) => label.to_owned(),
            FizzBuzz::Unmatched(value) => to_decimal(value),
        }
    }
}

/// The fixed rule table as data.
pub fn table() -> (t: [StringToNum; 2])
    ensures
        rules_view(t@) == rule_table(),
        forall|i: int| 0 <= i < 2 ==> (#[trigger] t@[i]).wf(),
{
    let t = [StringToNum { string: "Fizz", num: 3 }, StringToNum { string: "Buzz", num: 5 }];
    assert(rules_view(t@) =~= rule_table());
    t
}

/// Classifies `num` against `rules`: the first rule that divides it wins.
pub fn get_enum_with(rules: &[StringToNum], num: i32) -> (r: FizzBuzz)
    requires
        forall|i: int| 0 <= i < rules@.len() ==> (#[trigger] rules@[i]).wf(),
    ensures
        r@ == classify_with(rules_view(rules@), num as int),
{
    let ghost all = rules_view(rules@);
    let mut i: usize = 0;
    assert(all.skip(0) =~= all);
    while i < rules.len()
        invariant
            0 <= i <= rules@.len(),
            forall|j: int| 0 <= j < rules@.len() ==> (#[trigger] rules@[j]).wf(),
            all == rules_view(rules@),
            first_match(all, num as int) == first_match(all.skip(i as int), num as int),
        decreases rules@.len() - i,
    {
        let elem = rules[i];
        proof {
            let rest = all.skip(i as int);
            assert(rest[0] == elem@);
            assert(rest.drop_first() =~= all.skip(i + 1));
        }
        if elem.divides(num) {
            return FizzBuzz::Dividable(elem.string);
        }
        i += 1;
    }
    FizzBuzz::Unmatched(num)
}

/// Classifies `num` against the fixed table: "Fizz" for a multiple of 3,
/// "Buzz" for any other multiple of 5, and otherwise the number itself.
pub fn get_enum(num: i32) -> (r: FizzBuzz)
    ensures
        r@ == classify(num as int),
        num % 3 == 0 ==> r@ == Outcome::Matched("Fizz"@),
        num % 3 != 0 && num % 5 == 0 ==> r@ == Outcome::Matched("Buzz"@),
        num % 3 != 0 && num % 5 != 0 ==> r@ == Outcome::Unmatched(num as int),
{
    proof {
        lemma_classify_cases(num as int);
    }
    let t = table();
    get_enum_with(&t, num)
}

/// The first number of the report.
pub const FIRST: i32 = 1;

/// The last number of the report.
pub const LAST: i32 = 100;

/// The report: one line for each number from [`FIRST`] to [`LAST`], in
/// ascending order, each the label of the number or the number itself.
pub fn lines() -> (out: Vec<String>)
    ensures
        out@.len() == LAST - FIRST + 1,
        forall|i: int| 0 <= i < out@.len() ==> (#[trigger] out@[i])@ == line_of(classify(FIRST + i)),
{
    let mut out: Vec<String> = Vec::new();
    let mut n: i32 = FIRST;
    while n <= LAST
        invariant
            FIRST <= n <= LAST + 1,
            out@.len() == n - FIRST,
            forall|i: int|
                0 <= i < out@.len() ==> (#[trigger] out@[i])@ == line_of(classify(FIRST + i)),
        decreases LAST + 1 - n,
    {
        out.push(get_enum(n).line());
        n += 1;
    }
    out
}

/// The fixed table decides by divisibility by 3 first, then by 5. A number is
/// "Fizz" exactly when 3 divides it, whether or not 5 does too; it is "Buzz"
/// exactly when 5 divides it and 3 does not; any other number is left
/// unmatched. So among the numbers that 3 and 5 do not both divide, "Fizz"
/// marks those that 3 divides and 5 does not, and a multiple of both is
/// "Fizz", never a combined label.
pub proof fn lemma_classify_cases(n: int)
    ensures
        classify(n) == Outcome::Matched("Fizz"@) <==> n % 3 == 0,
        classify(n) == Outcome::Matched("Buzz"@) <==> (n % 5 == 0 && n % 3 != 0),
        classify(n) == Outcome::Unmatched(n) <==> (n % 3 != 0 && n % 5 != 0),
        !(n % 3 == 0 && n % 5 == 0) ==> (classify(n) == Outcome::Matched("Fizz"@) <==> (n % 3 == 0
            && n % 5 != 0)),
        n % 3 == 0 && n % 5 == 0 ==> classify(n) == Outcome::Matched("Fizz"@),
{
    reveal_strlit("Fizz");
    reveal_strlit("Buzz");
    let rules = rule_table();
    let rest = rules.drop_first();
    assert(rest.len() == 1 && rest[0] == rules[1]);
    assert(rest.drop_first().len() == 0);
    assert("Fizz"@[0] != "Buzz"@[0]);
    reveal_with_fuel(first_match, 3);
}

} // verus!
