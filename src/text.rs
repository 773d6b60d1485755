//! Text building blocks of the emitter: indentation, decimal numbers,
//! separated lists and bit ranges.
use vstd::prelude::*;
use vstd::string::*;

verus! {

/// The spaces that open a line at nesting depth `depth`, four per level.
pub open spec fn indent(depth: nat) -> Seq<char>
    decreases depth,
{
    if depth == 0 {
        Seq::empty()
    } else {
        indent((depth - 1) as nat) + "    "@
    }
}

/// One line of text at nesting depth `depth`.
pub open spec fn line(depth: nat, body: Seq<char>) -> Seq<char> {
    indent(depth) + body + "\n"@
}

/// The decimal digit `d`, for `d < 10`.
pub open spec fn digit_char(d: nat) -> char {
    "0123456789"@[d as int]
}

/// The decimal notation of `n`, without leading zeros.
pub open spec fn decimal(n: nat) -> Seq<char>
    decreases n,
{
    if n < 10 {
        seq![digit_char(n)]
    } else {
        decimal(n / 10) + seq![digit_char(n % 10)]
    }
}

/// The parts, in order, with `sep` between each two neighbours.
pub open spec fn join(parts: Seq<Seq<char>>, sep: Seq<char>) -> Seq<char>
    decreases parts.len(),
{
    if parts.len() == 0 {
        Seq::empty()
    } else if parts.len() == 1 {
        parts[0]
    } else {
        join(parts.drop_last(), sep) + sep + parts.last()
    }
}

/// The parts, in order, one after the other.
pub open spec fn concat_all(parts: Seq<Seq<char>>) -> Seq<char>
    decreases parts.len(),
{
    if parts.len() == 0 {
        Seq::empty()
    } else {
        concat_all(parts.drop_last()) + parts.last()
    }
}

/// The bit-range prefix of a declaration: `[bits-1:0] ` when `bits > 1`,
/// nothing for a single bit.
pub open spec fn range_text(bits: nat) -> Seq<char> {
    if bits > 1 {
        "["@ + decimal((bits - 1) as nat) + ":0] "@
    } else {
        Seq::empty()
    }
}

pub proof fn lemma_concat_push(parts: Seq<Seq<char>>, x: Seq<char>)
    ensures
        concat_all(parts.push(x)) == concat_all(parts) + x,
{
    assert(parts.push(x).drop_last() =~= parts);
}

pub proof fn lemma_join_push(parts: Seq<Seq<char>>, sep: Seq<char>, x: Seq<char>)
    ensures
        join(parts.push(x), sep) == if parts.len() == 0 {
            x
        } else {
            join(parts, sep) + sep + x
        },
{
    assert(parts.push(x).drop_last() =~= parts);
}

/// An owned copy of a string slice.
pub fn s(text: &str) -> (r: String)
    ensures
        r@ == text@,
{
    String::from_str(text)
}

pub fn push_indent(out: &mut String, depth: usize)
    ensures
        final(out)@ == old(out)@ + indent(depth as nat),
{
    let mut i: usize = 0;
    while i < depth
        invariant
            i <= depth,
            out@ == old(out)@ + indent(i as nat),
        decreases depth - i,
    {
        out.append("    ");
        assert(indent((i + 1) as nat) == indent(i as nat) + "    "@);
        i = i + 1;
    }
}

pub fn push_decimal(out: &mut String, n: usize)
    ensures
        final(out)@ == old(out)@ + decimal(n as nat),
    decreases n,
{
    if n >= 10 {
        push_decimal(out, n / 10);
    }
    let d: usize = n % 10;
    let digits = "0123456789";
    proof {
        reveal_strlit("0123456789");
    }
    out.append(digits.substring_char(d, d + 1));
    assert(digits@.subrange(d as int, d + 1) =~= seq![digit_char(d as nat)]);
    if n >= 10 {
        assert(old(out)@ + decimal((n / 10) as nat) + seq![digit_char(d as nat)] =~= old(out)@
            + decimal(n as nat));
    } else {
        assert(d == n);
    }
}

pub fn push_range(out: &mut String, bits: usize)
    ensures
        final(out)@ == old(out)@ + range_text(bits as nat),
{
    if bits > 1 {
        out.append("[");
        push_decimal(out, bits - 1);
        out.append(":0] ");
        assert(old(out)@ + "["@ + decimal((bits - 1) as nat) + ":0] "@ =~= old(out)@ + range_text(
            bits as nat,
        ));
    } else {
        assert(old(out)@ + range_text(bits as nat) =~= old(out)@);
    }
}

} // verus!
