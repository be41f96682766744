use vstd::prelude::*;

verus! {

/// Sum of two machine integers; the caller keeps the sum in range.
pub fn add(n1: i32, n2: i32) -> (r: i32)
    requires
        i32::MIN <= n1 + n2 <= i32::MAX,
    ensures
        r == n1 + n2,
{
    n1 + n2
}

/// The greeting line for a salutation and a name, paired with the sum that
/// the closure demo computes: `<greet> <name>, nice to meet you!` and
/// `3 + 3 + 10`.
pub fn greeting(greet: &str, name: &str) -> (r: (String, i32))
    ensures
        r.0@ == greet@ + " "@ + name@ + ", nice to meet you!"@,
        r.1 == 16,
{
    let mut line = String::from_str(greet);
    line.append(" ");
    line.append(name);
    line.append(", nice to meet you!");
    let n3: i32 = 10;
    let add_nums = |n1: i32, n2: i32| -> (s: i32)
        requires
            -100 <= n1 <= 100 && -100 <= n2 <= 100,
        ensures
            s == n1 + n2 + 10,
        { n1 + n2 + n3 };
    let c_sum = add_nums(3, 3);
    (line, c_sum)
}

/// The values the demo routine computes: the greeting line for `Hello` and
/// `Jane`, the closure demo's sum, and the sum bound from `add(5, 5)`.
pub fn run() -> (r: (String, i32, i32))
    ensures
        r.0@ == "Hello Jane, nice to meet you!"@,
        r.1 == 16,
        r.2 == 10,
{
    let (line, c_sum) = greeting("Hello", "Jane");
    let get_sum = crate::functions::add(5, 5);
    proof {
        reveal_strlit("Hello");
        reveal_strlit(" ");
        reveal_strlit("Jane");
        reveal_strlit(", nice to meet you!");
        reveal_strlit("Hello Jane, nice to meet you!");
        assert(line@ =~= "Hello Jane, nice to meet you!"@);
    }
    (line, c_sum, get_sum)
}

} // verus!
