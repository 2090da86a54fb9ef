//! The texts of the interface's labels.
use crate::text::string_push;
use vstd::prelude::*;
use vstd::string::*;

verus! {

/// A chat line as shown: the sender's alias, a colon, and the message.
pub fn chat_label(alias: &str, msg: &str) -> (r: String)
    ensures
        r@ == alias@ + ": "@ + msg@,
{
    let mut r = String::from_str(alias);
    r.append(": ");
    r.append(msg);
    r
}

/// The label of the game's version.
pub fn version_label(version: &str) -> (r: String)
    ensures
        r@ == "Version "@ + version@,
{
    let mut r = String::from_str("Version ");
    r.append(version);
    r
}

/// The label of the build time.
pub fn build_time_label(time: &str) -> (r: String)
    ensures
        r@ == "Built at "@ + time@,
{
    let mut r = String::from_str("Built at ");
    r.append(time);
    r
}

/// The number of bytes of a commit hash that its label shows.
pub open spec fn short_len(hash: &str) -> int {
    if hash.spec_bytes().len() < 8 {
        hash.spec_bytes().len() as int
    } else {
        8
    }
}

/// The label of the build: the first eight bytes of the commit hash (all
/// of it if shorter). The cut must fall between two characters, as it does
/// in a hash written in hexadecimal digits.
pub fn build_label(git_hash: &str) -> (r: String)
    requires
        vstd::utf8::is_char_boundary(git_hash.spec_bytes(), short_len(git_hash)),
    ensures
        vstd::utf8::encode_utf8(r@) == "Build ".spec_bytes() + git_hash.spec_bytes().take(short_len(git_hash)),
{
    let len = git_hash.as_bytes().len();
    let n = if len < 8 {
        len
    } else {
        8
    };
    let (head, _) = git_hash.split_at(n);
    let mut r = String::from_str("Build ");
    r.append(head);
    proof {
        lemma_bytes_concat("Build "@, head@);
    }
    assert(head.spec_bytes() =~= git_hash.spec_bytes().take(short_len(git_hash)));
    r
}

/// The debug box's line of the game's version.
pub fn debug_version_label(version: &str) -> (r: String)
    ensures
        r@ == "Version: "@ + version@,
{
    let mut r = String::from_str("Version: ");
    r.append(version);
    r
}

/// The debug box's line of the build time.
pub fn debug_build_time_label(time: &str) -> (r: String)
    ensures
        r@ == "Build time: "@ + time@,
{
    let mut r = String::from_str("Build time: ");
    r.append(time);
    r
}

/// The debug box's line of the commit hash: its first eight bytes where
/// they end on a character boundary, else `<none>` (a hash shorter than
/// eight bytes included).
pub fn debug_git_hash_label(hash: &str) -> (r: String)
    ensures
        vstd::utf8::is_char_boundary(hash.spec_bytes(), 8) ==> vstd::utf8::encode_utf8(r@)
            == "Git hash: ".spec_bytes() + hash.spec_bytes().take(8),
        !vstd::utf8::is_char_boundary(hash.spec_bytes(), 8) ==> r@ == "Git hash: <none>"@,
{
    if hash.is_char_boundary(8) {
        let (head, _) = hash.split_at(8);
        let mut r = String::from_str("Git hash: ");
        r.append(head);
        proof {
            lemma_bytes_concat("Git hash: "@, head@);
        }
        r
    } else {
        String::from_str("Git hash: <none>")
    }
}

/// The decimal digit `d`.
pub open spec fn spec_digit(d: nat) -> char {
    ((48 + d) as u8) as char
}

/// `n` written in decimal, without leading zeros.
pub open spec fn spec_decimal(n: nat) -> Seq<char>
    decreases n,
{
    if n < 10 {
        seq![spec_digit(n)]
    } else {
        spec_decimal(n / 10).push(spec_digit(n % 10))
    }
}

/// Appends `n`, written in decimal, to `s`.
fn push_decimal(s: &mut String, n: usize)
    ensures
        final(s)@ == old(s)@ + spec_decimal(n as nat),
    decreases n,
{
    if n >= 10 {
        push_decimal(s, n / 10);
    }
    let d = (n % 10) as u8;
    string_push(s, (48u8 + d) as char);
    proof {
        if n < 10 {
            assert(old(s)@.push(spec_digit(n as nat)) =~= old(s)@ + spec_decimal(n as nat));
        }
    }
}

/// The debug box's line of the frame rate.
pub fn debug_fps_label(fps: usize) -> (r: String)
    ensures
        r@ == "FPS: "@ + spec_decimal(fps as nat),
{
    let mut r = String::from_str("FPS: ");
    push_decimal(&mut r, fps);
    r
}

/// The encoding of two joined texts is the two encodings joined.
proof fn lemma_bytes_concat(a: Seq<char>, b: Seq<char>)
    ensures
        vstd::utf8::encode_utf8(a + b) == vstd::utf8::encode_utf8(a) + vstd::utf8::encode_utf8(b),
    decreases a.len(),
{
    if a.len() == 0 {
        assert(a + b =~= b);
        assert(vstd::utf8::encode_utf8(a) + vstd::utf8::encode_utf8(b) =~= vstd::utf8::encode_utf8(b));
    } else {
        lemma_bytes_concat(a.drop_first(), b);
        assert((a + b).drop_first() =~= a.drop_first() + b);
        assert((a + b)[0] == a[0]);
        assert(vstd::utf8::encode_utf8(a + b) =~= vstd::utf8::encode_utf8(a) + vstd::utf8::encode_utf8(b));
    }
}

} // verus!
