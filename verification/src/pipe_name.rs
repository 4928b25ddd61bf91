use vstd::prelude::*;

verus! {

/// The name of the pipe that the unnamed Everything instance listens on.
pub const PIPE_NAME_BASE: &'static str = "\\\\.\\PIPE\\Everything IPC";

/// The UTF-16 code units of one character.
pub open spec fn utf16_char(c: char) -> Seq<u16> {
    let v = c as u32;
    if v < 0x10000 {
        seq![v as u16]
    } else {
        let w = (v - 0x10000) as u32;
        seq![(0xD800 + w / 0x400) as u16, (0xDC00 + w % 0x400) as u16]
    }
}

/// The UTF-16 encoding of a character sequence.
pub open spec fn utf16(s: Seq<char>) -> Seq<u16>
    decreases s.len(),
{
    if s.len() == 0 {
        seq![]
    } else {
        utf16(s.drop_last()) + utf16_char(s.last())
    }
}

/// One character's UTF-16 units follow the standard: a character below 0x10000 is the one unit
/// of its own value; any other is a high surrogate (0xD800..0xDBFF) then a low surrogate
/// (0xDC00..0xDFFF) from which it decodes back.
pub proof fn lemma_utf16_char_is_standard(c: char)
    ensures
        (c as u32) < 0x10000 ==> utf16_char(c).len() == 1 && utf16_char(c)[0] as u32 == c as u32,
        (c as u32) >= 0x10000 ==> {
            let u = utf16_char(c);
            &&& u.len() == 2
            &&& 0xD800 <= u[0] < 0xDC00
            &&& 0xDC00 <= u[1] < 0xE000
            &&& (u[0] - 0xD800) * 0x400 + (u[1] - 0xDC00) + 0x10000 == c as u32
        },
{
    let v = c as u32;
    assert(v <= 0x10FFFF);
    if v >= 0x10000 {
        let w = (v - 0x10000) as u32;
        assert(w / 0x400 < 0x400);
        assert((w / 0x400) * 0x400 + w % 0x400 == w) by (nonlinear_arith);
    }
}

/// The UTF-16 encoding of a string is that of its characters, one after another.
pub proof fn lemma_utf16_concat(a: Seq<char>, b: Seq<char>)
    ensures
        utf16(a + b) == utf16(a) + utf16(b),
    decreases b.len(),
{
    if b.len() == 0 {
        assert(a + b =~= a);
        assert(utf16(a) + utf16(b) =~= utf16(a));
    } else {
        assert((a + b).drop_last() =~= a + b.drop_last());
        lemma_utf16_concat(a, b.drop_last());
        assert(utf16(a) + utf16(b.drop_last()) + utf16_char(b.last()) =~= utf16(a) + (utf16(
            b.drop_last(),
        ) + utf16_char(b.last())));
    }
}

/// The UTF-16 encoding of one character is its units.
pub proof fn lemma_utf16_single(c: char)
    ensures
        utf16(seq![c]) == utf16_char(c),
{
    let s = seq![c];
    assert(s.drop_last() =~= Seq::<char>::empty());
    assert(s.last() == c);
    assert(utf16(s.drop_last()) == Seq::<u16>::empty());
    assert(Seq::<u16>::empty() + utf16_char(c) =~= utf16_char(c));
}

/// Appends the UTF-16 code units of `c` to `buf`.
fn push_utf16_char(buf: &mut Vec<u16>, c: char)
    ensures
        final(buf)@ == old(buf)@ + utf16_char(c),
{
    let v: u32 = c as u32;
    if v < 0x10000 {
        buf.push(v as u16);
    } else {
        let w: u32 = v - 0x10000;
        assert(w < 0x100000) by {
            assert(v <= 0x10FFFF);
        }
        buf.push((0xD800 + w / 0x400) as u16);
        buf.push((0xDC00 + w % 0x400) as u16);
    }
}

/// Appends the UTF-16 encoding of `s` to `buf`.
fn push_utf16(buf: &mut Vec<u16>, s: &str)
    ensures
        final(buf)@ == old(buf)@ + utf16(s@),
{
    broadcast use vstd::string::axiom_spec_iter;
    let ghost start = buf@;
    for c in it: s.chars()
        invariant
            it.seq() == s@,
            buf@ == start + utf16(s@.take(it.index() as int)),
    {
        proof {
            assert(s@.take(it.index() + 1).drop_last() =~= s@.take(it.index() as int));
        }
        push_utf16_char(buf, c);
        proof {
            assert(start + utf16(s@.take(it.index() as int)) + utf16_char(c) =~= start + (utf16(s@.take(it.index() as int)) + utf16_char(c)));
        }
    }
    assert(s@.take(s@.len() as int) =~= s@);
}

/// The UTF-16 code units, NUL-terminated, of the name of the pipe served by the Everything
/// instance `instance_name`: the base name, then for a non-empty instance name a space and the
/// name in parentheses, as in `Everything IPC (1.5a)`.
pub open spec fn pipe_name_units(instance_name: Seq<char>) -> Seq<u16> {
    let suffix = if instance_name.len() == 0 {
        seq![]
    } else {
        seq![' ' as u16, '(' as u16] + utf16(instance_name) + seq![')' as u16]
    };
    utf16(PIPE_NAME_BASE@) + suffix + seq![0u16]
}

/// A pipe name ends with a NUL; without an instance name it is the base name alone, and with
/// one it is the base name, a space, `(`, the instance name and `)`.
pub proof fn lemma_pipe_name_shape(instance_name: Seq<char>)
    ensures
        pipe_name_units(instance_name).last() == 0u16,
        instance_name.len() == 0 ==> pipe_name_units(instance_name) == utf16(PIPE_NAME_BASE@)
            + seq![0u16],
        instance_name.len() > 0 ==> pipe_name_units(instance_name) == utf16(PIPE_NAME_BASE@)
            + seq![' ' as u16, '(' as u16] + utf16(instance_name) + seq![')' as u16, 0u16],
{
    let s = pipe_name_units(instance_name);
    if instance_name.len() == 0 {
        assert(s =~= utf16(PIPE_NAME_BASE@) + seq![0u16]);
    } else {
        assert(s =~= utf16(PIPE_NAME_BASE@) + seq![' ' as u16, '(' as u16] + utf16(instance_name)
            + seq![')' as u16, 0u16]);
    }
}

/// Appends to `buf` the NUL-terminated UTF-16 name of the pipe of the Everything instance
/// `instance_name` (the unnamed instance where it is empty).
///
/// Always succeeds and returns `true`.
pub fn get_pipe_name(buf: &mut Vec<u16>, instance_name: &str) -> (ok: bool)
    ensures
        ok,
        final(buf)@ == old(buf)@ + pipe_name_units(instance_name@),
{
    let ghost start = buf@;
    push_utf16(buf, PIPE_NAME_BASE);
    let ghost after_base = buf@;
    if !instance_name.is_empty() {
        buf.push(' ' as u16);
        buf.push('(' as u16);
        push_utf16(buf, instance_name);
        buf.push(')' as u16);
        assert(buf@ =~= after_base + (seq![' ' as u16, '(' as u16] + utf16(instance_name@) + seq![')' as u16]));
    } else {
        assert(buf@ =~= after_base + seq![]);
    }
    buf.push(0);
    true
}

} // verus!
