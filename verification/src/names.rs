//! Names of blend shapes: from ARKit keys to formula variables, and their mirror images.
use crate::text::ends_with;
use vstd::prelude::*;

verus! {

/// What `char::to_uppercase` yields for a character outside ASCII.
pub uninterp spec fn unicode_uppercase(c: char) -> Seq<char>;

/// The ASCII character `c` in upper case.
pub open spec fn ascii_uppercase(c: char) -> char {
    if 'a' <= c <= 'z' {
        (c as u32 - 0x20) as u32 as char
    } else {
        c
    }
}

/// The upper case of a character, which can be more than one character.
pub open spec fn uppercase(c: char) -> Seq<char> {
    if (c as u32) < 0x80 {
        seq![ascii_uppercase(c)]
    } else {
        unicode_uppercase(c)
    }
}

/// The side that an ARKit key ends in, spelled out; empty where it names none.
pub open spec fn side_of(key: Seq<char>) -> Seq<char> {
    if "_L"@.is_suffix_of(key) {
        "Left"@
    } else if "_R"@.is_suffix_of(key) {
        "Right"@
    } else {
        ""@
    }
}

/// An ARKit key without its side.
pub open spec fn base_of(key: Seq<char>) -> Seq<char> {
    if "_L"@.is_suffix_of(key) || "_R"@.is_suffix_of(key) {
        key.subrange(0, key.len() - 2)
    } else {
        key
    }
}

/// The formula variable for an ARKit key: the base with its first letter in upper case, then the
/// side. A key that is no more than a side has the empty name.
pub open spec fn pascal_name(key: Seq<char>) -> Seq<char> {
    let base = base_of(key);
    if base.len() == 0 {
        Seq::empty()
    } else {
        uppercase(base[0]) + base.drop_first() + side_of(key)
    }
}

/// The name of the same feature on the other side of the face.
pub open spec fn mirrored_name(name: Seq<char>) -> Seq<char> {
    if "Left"@.is_suffix_of(name) {
        name.subrange(0, name.len() - 4) + "Right"@
    } else if "Right"@.is_suffix_of(name) {
        name.subrange(0, name.len() - 5) + "Left"@
    } else {
        name
    }
}

/// Calls `char::to_uppercase`, which yields the upper case of a character as one or more
/// characters. Claims that an ASCII letter maps to its capital, that any other ASCII character
/// maps to itself, and that what comes for the rest depends on the character alone.
#[verifier::external_body]
fn to_uppercase(c: char) -> (upper: String)
    ensures
        (c as u32) < 0x80 ==> upper@ == seq![ascii_uppercase(c)],
        (c as u32) >= 0x80 ==> upper@ == unicode_uppercase(c),
{
    c.to_uppercase().collect()
}

/// Converts an ARKit blend shape key to PascalCase and expands `_L` and `_R` to `Left` and
/// `Right`.
pub fn arkit_to_pascal(k: &str) -> (name: String)
    ensures
        name@ == pascal_name(k@),
{
    proof {
        reveal_strlit("_L");
        reveal_strlit("_R");
        reveal_strlit("");
    }
    let n: usize = k.unicode_len();
    let (base, side) = if ends_with(k, "_L") {
        (k.substring_char(0, n - 2), "Left")
    } else if ends_with(k, "_R") {
        (k.substring_char(0, n - 2), "Right")
    } else {
        (k, "")
    };
    let m: usize = base.unicode_len();
    if m == 0 {
        return String::new();
    }
    assert(base@.drop_first() =~= base@.subrange(1, m as int));
    to_uppercase(base.get_char(0)).concat(base.substring_char(1, m)).concat(side)
}

/// Swaps the suffixes `Left` and `Right`.
pub fn mirror_lr(name: &str) -> (mirrored: String)
    ensures
        mirrored@ == mirrored_name(name@),
{
    proof {
        reveal_strlit("Left");
        reveal_strlit("Right");
    }
    let n: usize = name.unicode_len();
    if ends_with(name, "Left") {
        name.substring_char(0, n - 4).to_owned().concat("Right")
    } else if ends_with(name, "Right") {
        name.substring_char(0, n - 5).to_owned().concat("Left")
    } else {
        name.to_owned()
    }
}

/// The variable that a key is known by, in mirror mode or not.
pub open spec fn variable_name(key: Seq<char>, mirror: bool) -> Seq<char> {
    if mirror {
        mirrored_name(pascal_name(key))
    } else {
        pascal_name(key)
    }
}

/// Mirroring twice gives back every name.
pub proof fn law_mirror_is_involution(name: Seq<char>)
    ensures
        mirrored_name(mirrored_name(name)) == name,
{
    reveal_strlit("Left");
    reveal_strlit("Right");
    let m = mirrored_name(name);
    if "Left"@.is_suffix_of(name) {
        let base = name.subrange(0, name.len() - 4);
        assert(m.subrange(m.len() - 4, m.len() as int)[3] == 't');
        assert(m.subrange(m.len() - 4, m.len() as int)[2] == 'h');
        assert(!"Left"@.is_suffix_of(m));
        assert(m.subrange(m.len() - 5, m.len() as int) =~= "Right"@);
        assert(m.subrange(0, m.len() - 5) =~= base);
        assert(base + "Left"@ =~= name) by {
            assert(name.subrange(name.len() - 4, name.len() as int) =~= "Left"@);
            assert(base + name.subrange(name.len() - 4, name.len() as int) =~= name);
        }
    } else if "Right"@.is_suffix_of(name) {
        let base = name.subrange(0, name.len() - 5);
        assert(m.subrange(m.len() - 4, m.len() as int) =~= "Left"@);
        assert(m.subrange(0, m.len() - 4) =~= base);
        assert(base + "Right"@ =~= name) by {
            assert(base + name.subrange(name.len() - 5, name.len() as int) =~= name);
        }
    }
}

/// The left and the right key of one feature are mirror images of each other: each mirrored
/// variable is the variable of the key for the other side.
pub proof fn law_mirror_swaps_sides(base: Seq<char>)
    ensures
        mirrored_name(pascal_name(base + "_L"@)) == pascal_name(base + "_R"@),
        mirrored_name(pascal_name(base + "_R"@)) == pascal_name(base + "_L"@),
{
    reveal_strlit("_L");
    reveal_strlit("_R");
    reveal_strlit("Left");
    reveal_strlit("Right");
    let l = base + "_L"@;
    let r = base + "_R"@;
    assert(l.subrange(l.len() - 2, l.len() as int) =~= "_L"@);
    assert(r.subrange(r.len() - 2, r.len() as int) =~= "_R"@);
    assert(r.subrange(r.len() - 2, r.len() as int)[1] == 'R');
    assert(l.subrange(0, l.len() - 2) =~= base);
    assert(r.subrange(0, r.len() - 2) =~= base);
    if base.len() > 0 {
        let stem = uppercase(base[0]) + base.drop_first();
        assert(pascal_name(l) == stem + "Left"@);
        assert(pascal_name(r) == stem + "Right"@);
        let name = pascal_name(l);
        assert(name.subrange(name.len() - 4, name.len() as int) =~= "Left"@);
        assert(name.subrange(0, name.len() - 4) =~= stem);
        law_mirror_is_involution(name);
    }
}

/// No name in PascalCase ends in `_L` or `_R`: the side is always spelled out, for keys that start
/// in ASCII.
pub proof fn law_pascal_spells_sides_out(key: Seq<char>)
    requires
        key.len() > 0 ==> (key[0] as u32) < 0x80,
    ensures
        !"_L"@.is_suffix_of(pascal_name(key)),
        !"_R"@.is_suffix_of(pascal_name(key)),
{
    reveal_strlit("_L");
    reveal_strlit("_R");
    reveal_strlit("Left");
    reveal_strlit("Right");
    reveal_strlit("");
    let name = pascal_name(key);
    let base = base_of(key);
    if base.len() > 0 {
        assert(base[0] == key[0]);
        assert(name.len() == base.len() + side_of(key).len());
        let n = name.len() as int;
        let k = key.len() as int;
        if side_of(key).len() > 0 {
            assert(name[n - 1] == 't');
            assert("_L"@[1] == 'L' && "_R"@[1] == 'R');
            if "_L"@.is_suffix_of(name) {
                assert(name.subrange(n - 2, n)[1] == 'L');
            }
            if "_R"@.is_suffix_of(name) {
                assert(name.subrange(n - 2, n)[1] == 'R');
            }
        } else {
            assert(n == k);
            assert(forall|i: int| 1 <= i < n ==> name[i] == key[i]);
            if n >= 2 {
                if "_L"@.is_suffix_of(name) {
                    assert(name.subrange(n - 2, n)[0] == '_' && name.subrange(n - 2, n)[1] == 'L');
                    assert(key[n - 2] == '_');
                    assert(key.subrange(n - 2, n) =~= "_L"@);
                }
                if "_R"@.is_suffix_of(name) {
                    assert(name.subrange(n - 2, n)[0] == '_' && name.subrange(n - 2, n)[1] == 'R');
                    assert(key[n - 2] == '_');
                    assert(key.subrange(n - 2, n) =~= "_R"@);
                }
            }
        }
    }
}

/// A name that is already in PascalCase is its own name, for keys that start in ASCII.
pub proof fn law_pascal_is_idempotent(key: Seq<char>)
    requires
        key.len() > 0 ==> (key[0] as u32) < 0x80,
    ensures
        pascal_name(pascal_name(key)) == pascal_name(key),
{
    reveal_strlit("_L");
    reveal_strlit("_R");
    reveal_strlit("");
    law_pascal_spells_sides_out(key);
    let name = pascal_name(key);
    if base_of(key).len() > 0 {
        assert(base_of(key)[0] == key[0]);
        assert(name[0] == ascii_uppercase(key[0]));
        assert(ascii_uppercase(name[0]) == name[0]);
        assert(uppercase(name[0]) + name.drop_first() + ""@ =~= name);
    }
}

/// What a key becomes, character by character: its first letter is a capital, the letters after it
/// stay, and a side at its end is spelled out. A key that is no more than a side becomes nothing.
pub proof fn law_pascal_changes_first_letter_and_side(base: Seq<char>)
    ensures
        ({
            let head = if base.len() > 0 && (base[0] as u32) < 0x80 {
                seq![
                    if 0x61 <= base[0] as u32 <= 0x7a {
                        (base[0] as u32 - 0x20) as u32 as char
                    } else {
                        base[0]
                    },
                ]
            } else {
                unicode_uppercase(base[0])
            };
            &&& base.len() > 0 ==> pascal_name(base + "_L"@) == head + base.skip(1) + "Left"@
            &&& base.len() > 0 ==> pascal_name(base + "_R"@) == head + base.skip(1) + "Right"@
            &&& base.len() > 0 && !"_L"@.is_suffix_of(base) && !"_R"@.is_suffix_of(base)
                ==> pascal_name(base) == head + base.skip(1)
            &&& base.len() == 0 ==> pascal_name(base + "_L"@).len() == 0 && pascal_name(
                base + "_R"@,
            ).len() == 0 && pascal_name(base).len() == 0
        }),
{
    reveal_strlit("_L");
    reveal_strlit("_R");
    reveal_strlit("Left");
    reveal_strlit("Right");
    reveal_strlit("");
    let l = base + "_L"@;
    let r = base + "_R"@;
    assert(l.subrange(l.len() - 2, l.len() as int) =~= "_L"@);
    assert(r.subrange(r.len() - 2, r.len() as int) =~= "_R"@);
    assert(r.subrange(r.len() - 2, r.len() as int)[1] == 'R');
    assert(l.subrange(0, l.len() - 2) =~= base);
    assert(r.subrange(0, r.len() - 2) =~= base);
    if base.len() > 0 {
        assert(base.skip(1) =~= base.drop_first());
        assert(uppercase(base[0]) + base.drop_first() + ""@ =~= uppercase(base[0]) + base.skip(1));
    }
}

/// Mirroring replaces a side at the end of a name by the other one and keeps what stands before it;
/// a name without a side stays as it is, and without mirror mode every name does.
pub proof fn law_mirror_replaces_the_side(stem: Seq<char>, name: Seq<char>, key: Seq<char>)
    ensures
        mirrored_name(stem + "Left"@) == stem + "Right"@,
        mirrored_name(stem + "Right"@) == stem + "Left"@,
        !"Left"@.is_suffix_of(name) && !"Right"@.is_suffix_of(name) ==> mirrored_name(name) == name,
        variable_name(key, false) == pascal_name(key),
        variable_name(key, true) == mirrored_name(pascal_name(key)),
{
    reveal_strlit("Left");
    reveal_strlit("Right");
    let l = stem + "Left"@;
    let r = stem + "Right"@;
    assert(l.subrange(l.len() - 4, l.len() as int) =~= "Left"@);
    assert(r.subrange(r.len() - 5, r.len() as int) =~= "Right"@);
    assert(l.subrange(0, l.len() - 4) =~= stem);
    assert(r.subrange(0, r.len() - 5) =~= stem);
    assert(r.subrange(r.len() - 4, r.len() as int)[2] == 'h');
    assert("Left"@[2] == 'f');
}

} // verus!
