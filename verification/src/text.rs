//! Strings: comparison with literals, the stable hash of a string, and the
//! names that the rewrite synthesizes from a module id and such hashes.
use std::collections::hash_map::DefaultHasher;
use std::hash::Hasher;
use vstd::prelude::*;
use vstd::std_specs::hash::DefaultHasherAdditionalSpecFns;
use vstd::string::StringExecFns;
use vstd::string::StringSliceAdditionalSpecFns;

verus! {

/// Whether `s` spells the literal `lit`.
pub fn is_word(s: &String, lit: &str) -> (r: bool)
    ensures
        r == (s@ == lit@),
{
    let t = String::from_str(lit);
    *s == t
}

/// The hash of a string: what a freshly made default hasher of the standard
/// library reports after one write of the string's UTF-8 bytes.
pub open spec fn hash_of(s: Seq<char>) -> u64 {
    DefaultHasher::spec_finish(seq![vstd::utf8::encode_utf8(s)])
}

pub fn hash_str(s: &str) -> (h: u64)
    ensures
        h == hash_of(s@),
{
    let mut hasher = DefaultHasher::new();
    hasher.write(s.as_bytes());
    assert(hasher@ =~= seq![vstd::utf8::encode_utf8(s@)]);
    hasher.finish()
}

pub open spec fn hex_digit(d: int) -> char {
    if d == 0 {
        '0'
    } else if d == 1 {
        '1'
    } else if d == 2 {
        '2'
    } else if d == 3 {
        '3'
    } else if d == 4 {
        '4'
    } else if d == 5 {
        '5'
    } else if d == 6 {
        '6'
    } else if d == 7 {
        '7'
    } else if d == 8 {
        '8'
    } else if d == 9 {
        '9'
    } else if d == 10 {
        'a'
    } else if d == 11 {
        'b'
    } else if d == 12 {
        'c'
    } else if d == 13 {
        'd'
    } else if d == 14 {
        'e'
    } else {
        'f'
    }
}

/// A number in lower-case hexadecimal, without leading zeros.
pub open spec fn hex(n: nat) -> Seq<char>
    decreases n,
{
    if n < 16 {
        seq![hex_digit(n as int)]
    } else {
        hex(n / 16).push(hex_digit((n % 16) as int))
    }
}

fn digit_str(d: u64) -> (r: &'static str)
    requires
        d < 16,
    ensures
        r@ == seq![hex_digit(d as int)],
{
    proof {
        reveal_strlit("0");
        reveal_strlit("1");
        reveal_strlit("2");
        reveal_strlit("3");
        reveal_strlit("4");
        reveal_strlit("5");
        reveal_strlit("6");
        reveal_strlit("7");
        reveal_strlit("8");
        reveal_strlit("9");
        reveal_strlit("a");
        reveal_strlit("b");
        reveal_strlit("c");
        reveal_strlit("d");
        reveal_strlit("e");
        reveal_strlit("f");
    }
    let r = if d == 0 {
        "0"
    } else if d == 1 {
        "1"
    } else if d == 2 {
        "2"
    } else if d == 3 {
        "3"
    } else if d == 4 {
        "4"
    } else if d == 5 {
        "5"
    } else if d == 6 {
        "6"
    } else if d == 7 {
        "7"
    } else if d == 8 {
        "8"
    } else if d == 9 {
        "9"
    } else if d == 10 {
        "a"
    } else if d == 11 {
        "b"
    } else if d == 12 {
        "c"
    } else if d == 13 {
        "d"
    } else if d == 14 {
        "e"
    } else {
        "f"
    };
    assert(r@ =~= seq![hex_digit(d as int)]);
    r
}

/// Appends `n` in hexadecimal to `out`.
pub fn push_hex(out: &mut String, n: u64)
    ensures
        final(out)@ == old(out)@ + hex(n as nat),
    decreases n,
{
    if n < 16 {
        out.append(digit_str(n));
        assert(out@ =~= old(out)@ + hex(n as nat));
    } else {
        push_hex(out, n / 16);
        out.append(digit_str(n % 16));
        assert(out@ =~= old(out)@ + hex(n as nat));
    }
}

pub open spec fn star() -> Seq<char> {
    "*"@
}

/// `<module id>:<specifier>`, the specifier of a hoisted import.
pub open spec fn hoisted_specifier(module_id: Seq<char>, source: Seq<char>) -> Seq<char> {
    module_id + ":"@ + source
}

pub fn make_hoisted_specifier(module_id: &str, source: &str) -> (r: String)
    ensures
        r@ == hoisted_specifier(module_id@, source@),
{
    let mut r = String::from_str(module_id);
    r.append(":");
    r.append(source);
    r
}

/// `$<module id>$import$<hash of source>`, followed by `$<hash of key>`
/// unless the key is `*`.
pub open spec fn import_name(module_id: Seq<char>, source: Seq<char>, key: Seq<char>) -> Seq<char> {
    if key == star() {
        "$"@ + module_id + "$import$"@ + hex(hash_of(source) as nat)
    } else {
        "$"@ + module_id + "$import$"@ + hex(hash_of(source) as nat) + "$"@ + hex(
            hash_of(key) as nat,
        )
    }
}

pub fn make_import_name(module_id: &str, source: &String, key: &String) -> (r: String)
    ensures
        r@ == import_name(module_id@, source@, key@),
{
    let mut r = String::from_str("$");
    r.append(module_id);
    r.append("$import$");
    push_hex(&mut r, hash_str(source.as_str()));
    if !is_word(key, "*") {
        r.append("$");
        push_hex(&mut r, hash_str(key.as_str()));
    }
    r
}

/// `$<module id>$importAsync$<hash of source>`: the namespace of a
/// dynamically imported module.
pub open spec fn import_async_name(module_id: Seq<char>, source: Seq<char>) -> Seq<char> {
    "$"@ + module_id + "$importAsync$"@ + hex(hash_of(source) as nat)
}

pub fn make_import_async_name(module_id: &str, source: &String) -> (r: String)
    ensures
        r@ == import_async_name(module_id@, source@),
{
    let mut r = String::from_str("$");
    r.append(module_id);
    r.append("$importAsync$");
    push_hex(&mut r, hash_str(source.as_str()));
    r
}

/// `$<module id>$importAsync$<hash of source>$<hash of key>`: one binding
/// of a dynamically imported module.
pub open spec fn import_async_key_name(
    module_id: Seq<char>,
    source: Seq<char>,
    key: Seq<char>,
) -> Seq<char> {
    import_async_name(module_id, source) + "$"@ + hex(hash_of(key) as nat)
}

pub fn make_import_async_key_name(module_id: &str, source: &String, key: &String) -> (r: String)
    ensures
        r@ == import_async_key_name(module_id@, source@, key@),
{
    let mut r = make_import_async_name(module_id, source);
    r.append("$");
    push_hex(&mut r, hash_str(key.as_str()));
    r
}

/// `$<module id>$exports` for the whole exports object, else
/// `$<module id>$export$<hash of the exported name>`.
pub open spec fn export_name(module_id: Seq<char>, exported: Seq<char>) -> Seq<char> {
    if exported == star() {
        "$"@ + module_id + "$exports"@
    } else {
        "$"@ + module_id + "$export$"@ + hex(hash_of(exported) as nat)
    }
}

pub fn make_export_name(module_id: &str, exported: &String) -> (r: String)
    ensures
        r@ == export_name(module_id@, exported@),
{
    let mut r = String::from_str("$");
    r.append(module_id);
    if is_word(exported, "*") {
        r.append("$exports");
    } else {
        r.append("$export$");
        push_hex(&mut r, hash_str(exported.as_str()));
    }
    r
}

/// `$<module id>$require$<local name>`: the variable that stands between a
/// reassigned local and the import it was read from.
pub open spec fn require_name(module_id: Seq<char>, local: Seq<char>) -> Seq<char> {
    "$"@ + module_id + "$require$"@ + local
}

pub fn make_require_name(module_id: &str, local: &String) -> (r: String)
    ensures
        r@ == require_name(module_id@, local@),
{
    let mut r = String::from_str("$");
    r.append(module_id);
    r.append("$require$");
    r.append(local.as_str());
    r
}

/// `$<module id>$var$<name>`: a top-level binding of the module.
pub open spec fn var_name(module_id: Seq<char>, name: Seq<char>) -> Seq<char> {
    "$"@ + module_id + "$var$"@ + name
}

pub fn make_var_name(module_id: &str, name: &String) -> (r: String)
    ensures
        r@ == var_name(module_id@, name@),
{
    let mut r = String::from_str("$");
    r.append(module_id);
    r.append("$var$");
    r.append(name.as_str());
    r
}

} // verus!
