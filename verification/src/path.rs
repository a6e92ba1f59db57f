//! Paths that locate a value inside a document, written as text:
//! `messages[1].function_call.name`.
//!
//! The root has the empty path. A member of an object appends its name, after
//! a dot unless the object is the root; an element of an array appends its
//! index in decimal between square brackets.

use vstd::prelude::*;
use vstd::string::StringExecFns;

verus! {

/// The character of a decimal digit.
pub open spec fn digit(d: nat) -> char {
    if d == 0 {
        '0'
    } else if d == 1 {
        '1'
    } else if d == 2 {
        '2'
    } else if d == 3 {
        '3'
    } else if d == 4 {
        '4'
    } else if d == 5 {
        '5'
    } else if d == 6 {
        '6'
    } else if d == 7 {
        '7'
    } else if d == 8 {
        '8'
    } else {
        '9'
    }
}

/// A natural number in decimal, without leading zeros.
pub open spec fn decimal(n: nat) -> Seq<char>
    decreases n,
{
    if n < 10 {
        seq![digit(n)]
    } else {
        decimal(n / 10).push(digit(n % 10))
    }
}

/// The path of the member `name` of the object at `parent`.
pub open spec fn member_path(parent: Seq<char>, name: Seq<char>) -> Seq<char> {
    if parent.len() == 0 {
        name
    } else {
        parent + seq!['.'] + name
    }
}

/// The path of the element at `index` of the array at `parent`.
pub open spec fn element_path(parent: Seq<char>, index: nat) -> Seq<char> {
    parent + seq!['['] + decimal(index) + seq![']']
}

/// The path of the root of a document.
pub open spec fn root_path() -> Seq<char> {
    Seq::empty()
}

/// The path of a member starts with the path of its object.
pub proof fn lemma_member_path_extends(parent: Seq<char>, name: Seq<char>)
    ensures
        parent.is_prefix_of(member_path(parent, name)),
{
}

/// The path of an element starts with the path of its array.
pub proof fn lemma_element_path_extends(parent: Seq<char>, index: nat)
    ensures
        parent.is_prefix_of(element_path(parent, index)),
{
}

/// Two numbers that are written alike are the same number.
pub proof fn lemma_decimal_injective(a: nat, b: nat)
    requires
        decimal(a) == decimal(b),
    ensures
        a == b,
    decreases a,
{
    lemma_decimal_length(a);
    lemma_decimal_length(b);
    if a < 10 || b < 10 {
        assert(a < 10 && b < 10);
        assert(decimal(a)[0] == digit(a));
        assert(decimal(b)[0] == digit(b));
    } else {
        let front_a = decimal(a / 10);
        let front_b = decimal(b / 10);
        let last_a = digit(a % 10);
        let last_b = digit(b % 10);
        assert(decimal(a) == front_a.push(last_a));
        assert(decimal(b) == front_b.push(last_b));
        assert(front_a.push(last_a).last() == last_a);
        assert(front_b.push(last_b).last() == last_b);
        assert(front_a =~= front_a.push(last_a).drop_last());
        assert(front_b =~= front_b.push(last_b).drop_last());
        lemma_decimal_injective(a / 10, b / 10);
        assert(a % 10 == b % 10);
    }
}

/// A number below ten is written with one digit, any other with more.
pub proof fn lemma_decimal_length(n: nat)
    ensures
        n < 10 <==> decimal(n).len() == 1,
        decimal(n).len() >= 1,
    decreases n,
{
    if n >= 10 {
        lemma_decimal_length(n / 10);
    }
}

/// Two elements of one array have the same path only if they are the same
/// element.
pub proof fn lemma_element_paths_differ(parent: Seq<char>, i: nat, j: nat)
    requires
        element_path(parent, i) == element_path(parent, j),
    ensures
        i == j,
{
    let first = element_path(parent, i);
    let second = element_path(parent, j);
    assert(first.len() == second.len());
    assert(decimal(i) =~= first.subrange(parent.len() as int + 1, first.len() as int - 1));
    assert(decimal(j) =~= second.subrange(parent.len() as int + 1, second.len() as int - 1));
    lemma_decimal_injective(i, j);
}

/// Two members of one object have the same path only if they have the same
/// name.
pub proof fn lemma_member_paths_differ(parent: Seq<char>, a: Seq<char>, b: Seq<char>)
    requires
        member_path(parent, a) == member_path(parent, b),
    ensures
        a == b,
{
    if parent.len() > 0 {
        let first = member_path(parent, a);
        let second = member_path(parent, b);
        assert(first.len() == second.len());
        assert(a =~= first.subrange(parent.len() as int + 1, first.len() as int));
        assert(b =~= second.subrange(parent.len() as int + 1, second.len() as int));
    }
}

/// A path that starts with a second one, which starts with a third, starts
/// with the third.
pub proof fn lemma_prefix_chain(outer: Seq<char>, inner: Seq<char>, path: Seq<char>)
    requires
        outer.is_prefix_of(inner),
        inner.is_prefix_of(path),
    ensures
        outer.is_prefix_of(path),
{
}

fn digit_text(d: usize) -> (r: &'static str)
    requires
        d < 10,
    ensures
        r@ == seq![digit(d as nat)],
{
    proof {
        reveal_strlit("0");
        reveal_strlit("1");
        reveal_strlit("2");
        reveal_strlit("3");
        reveal_strlit("4");
        reveal_strlit("5");
        reveal_strlit("6");
        reveal_strlit("7");
        reveal_strlit("8");
        reveal_strlit("9");
    }
    let r: &'static str = if d == 0 {
        "0"
    } else if d == 1 {
        "1"
    } else if d == 2 {
        "2"
    } else if d == 3 {
        "3"
    } else if d == 4 {
        "4"
    } else if d == 5 {
        "5"
    } else if d == 6 {
        "6"
    } else if d == 7 {
        "7"
    } else if d == 8 {
        "8"
    } else {
        "9"
    };
    assert(r@ =~= seq![digit(d as nat)]);
    r
}

/// Writes a number in decimal.
pub fn decimal_text(n: usize) -> (r: String)
    ensures
        r@ == decimal(n as nat),
    decreases n,
{
    if n < 10 {
        String::from_str(digit_text(n))
    } else {
        let mut r: String = decimal_text(n / 10);
        r.append(digit_text(n % 10));
        assert(r@ =~= decimal(n as nat));
        r
    }
}

/// Writes the path of a member of the object at `parent`.
pub fn member_path_text(parent: &str, name: &str) -> (r: String)
    ensures
        r@ == member_path(parent@, name@),
{
    if parent.is_empty() {
        String::from_str(name)
    } else {
        proof {
            reveal_strlit(".");
        }
        let mut r: String = String::from_str(parent);
        r.append(".");
        r.append(name);
        assert(r@ =~= member_path(parent@, name@));
        r
    }
}

/// Writes the path of an element of the array at `parent`.
pub fn element_path_text(parent: &str, index: usize) -> (r: String)
    ensures
        r@ == element_path(parent@, index as nat),
{
    proof {
        reveal_strlit("[");
        reveal_strlit("]");
    }
    let number: String = decimal_text(index);
    let mut r: String = String::from_str(parent);
    r.append("[");
    r.append(number.as_str());
    r.append("]");
    assert(r@ =~= element_path(parent@, index as nat));
    r
}

} // verus!
