//! Hashing of configuration bytes, and the decision behind a yes/no prompt.
use vstd::prelude::*;

verus! {

/// The SHA-1 digest of `data`.
pub uninterp spec fn sha1_of(data: Seq<u8>) -> Seq<u8>;

/// Relies on `sha1::Sha1` through `Digest::digest`: the SHA-1 digest of the
/// bytes, whose output size is 20 bytes.
#[verifier::external_body]
fn sha1_digest(data: &Vec<u8>) -> (r: Vec<u8>)
    ensures
        r@ == sha1_of(data@),
        r@.len() == 20,
{
    <sha1::Sha1 as sha1::Digest>::digest(data.as_slice()).to_vec()
}

/// The lowercase mapping of a string.
pub uninterp spec fn lower_of(s: Seq<char>) -> Seq<char>;

/// Relies on `str::to_lowercase`: the result depends on the characters
/// alone, and an empty string stays empty.
#[verifier::external_body]
fn lowercase(s: &str) -> (r: String)
    ensures
        r@ == lower_of(s@),
        s@.len() == 0 ==> r@.len() == 0,
{
    s.to_lowercase()
}

/// The lowercase hexadecimal digits, in order.
pub open spec fn hex_digits() -> Seq<char> {
    seq!['0', '1', '2', '3', '4', '5', '6', '7', '8', '9', 'a', 'b', 'c', 'd', 'e', 'f']
}

/// Two lowercase hexadecimal digits for each byte, most significant first.
pub open spec fn hex_of(b: Seq<u8>) -> Seq<char>
    decreases b.len(),
{
    if b.len() == 0 {
        Seq::empty()
    } else {
        hex_of(b.drop_last()) + seq![hex_digits()[(b.last() / 16) as int], hex_digits()[(b.last() % 16) as int]]
    }
}

/// The question that asks whether a configuration's hash is the expected one.
pub open spec fn config_question_of(hash: Seq<char>) -> Seq<char> {
    "Is config hash ok: "@ + hash
}

/// The answer that a lowercased reply gives: yes when it begins with `y`, no
/// when it begins with `n`, and none otherwise.
pub open spec fn answer_in(l: Seq<char>) -> Option<bool> {
    if l.len() > 0 && l[0] == 'y' {
        Some(true)
    } else if l.len() > 0 && l[0] == 'n' {
        Some(false)
    } else {
        None
    }
}

/// The answer that a reply gives, by its lowercase form.
pub open spec fn answer_of(reply: Seq<char>) -> Option<bool> {
    answer_in(lower_of(reply))
}

/// Two lowercase hexadecimal digits for each byte of `bytes`.
pub fn hex_string(bytes: &Vec<u8>) -> (r: String)
    ensures
        r@ == hex_of(bytes@),
{
    let all = "0123456789abcdef";
    proof {
        reveal_strlit("0123456789abcdef");
        assert(all@ =~= hex_digits());
    }
    let mut out = String::new();
    let mut i: usize = 0;
    while i < bytes.len()
        invariant
            all@ == hex_digits(),
            i <= bytes@.len(),
            out@ == hex_of(bytes@.subrange(0, i as int)),
        decreases bytes@.len() - i,
    {
        let b = bytes[i];
        let hi = (b / 16) as usize;
        let lo = (b % 16) as usize;
        out.append(all.substring_char(hi, hi + 1));
        out.append(all.substring_char(lo, lo + 1));
        proof {
            let s = bytes@.subrange(0, i + 1);
            assert(s.drop_last() =~= bytes@.subrange(0, i as int));
            assert(out@ =~= hex_of(s));
        }
        i = i + 1;
    }
    assert(bytes@.subrange(0, i as int) =~= bytes@);
    out
}

/// The SHA-1 digest of `v`, in lowercase hexadecimal.
pub fn sha1sum_vec(v: &Vec<u8>) -> (r: String)
    ensures
        r@ == hex_of(sha1_of(v@)),
        r@.len() == 40,
{
    let digest = sha1_digest(v);
    let r = hex_string(&digest);
    proof {
        lemma_hex_len(digest@);
    }
    r
}

/// The hexadecimal rendering has two digits per byte.
pub proof fn lemma_hex_len(b: Seq<u8>)
    ensures
        hex_of(b).len() == 2 * b.len(),
    decreases b.len(),
{
    if b.len() > 0 {
        lemma_hex_len(b.drop_last());
    }
}

/// The question that asks whether a configuration's hash is the expected one.
pub fn config_question(hash: &str) -> (r: String)
    ensures
        r@ == config_question_of(hash@),
{
    let mut s = "Is config hash ok: ".to_string();
    s.append(hash);
    s
}

/// The answer that one reply to a yes/no prompt gives; `None` asks again.
pub fn yes_no_answer(reply: &str) -> (r: Option<bool>)
    ensures
        r == answer_of(reply@),
{
    let l = lowercase(reply);
    answer_from_lowered(l.as_str())
}

/// The answer that a lowercased reply gives: yes when it begins with `y`,
/// no when it begins with `n`, and `None` otherwise.
pub fn answer_from_lowered(l: &str) -> (r: Option<bool>)
    ensures
        r == answer_in(l@),
{
    if l.unicode_len() == 0 {
        return None;
    }
    let c = l.get_char(0);
    if c == 'y' {
        Some(true)
    } else if c == 'n' {
        Some(false)
    } else {
        None
    }
}

} // verus!
