//! Where a blob's bytes live, and the links and header values handed back.

use vstd::prelude::*;
use crate::text::{decimal, push_decimal, push_signed_decimal, signed_decimal};

verus! {

/// `dir` joined with a relative path: a separator is put between them
/// unless `dir` is empty or already ends with one.
pub open spec fn joined(dir: Seq<char>, rel: Seq<char>) -> Seq<char> {
    if dir.len() == 0 || dir.last() == '/' {
        dir + rel
    } else {
        dir + seq!['/'] + rel
    }
}

/// The file that holds the bytes of blob `id`: `<data_dir>/data/<id>`.
pub open spec fn data_file(dir: Seq<char>, id: int) -> Seq<char> {
    joined(dir, seq!['d', 'a', 't', 'a', '/'] + signed_decimal(id))
}

/// The link to blob `id`: `<base>/img/<id>`.
pub open spec fn blob_link(base: Seq<char>, id: int) -> Seq<char> {
    base + seq!['/', 'i', 'm', 'g', '/'] + signed_decimal(id)
}

/// The link to paste `id`: `<base>/paste/<id>`.
pub open spec fn paste_link(base: Seq<char>, id: int) -> Seq<char> {
    base + seq!['/', 'p', 'a', 's', 't', 'e', '/'] + signed_decimal(id)
}

/// The `Cache-Control` value that lets clients keep a blob for `secs`.
pub open spec fn max_age(secs: nat) -> Seq<char> {
    seq!['m', 'a', 'x', '-', 'a', 'g', 'e', '='] + decimal(secs)
}

/// Builds the path of the file that holds blob `id` under `data_dir`.
pub fn data_file_path(data_dir: &str, id: i64) -> (r: String)
    ensures
        r@ == data_file(data_dir@, id as int),
{
    let mut s = String::from_str(data_dir);
    proof {
        reveal_strlit("data/");
        reveal_strlit("/data/");
    }
    let n = data_dir.unicode_len();
    if n == 0 || data_dir.get_char(n - 1) == '/' {
        s.append("data/");
        assert(s@ == data_dir@ + seq!['d', 'a', 't', 'a', '/']);
    } else {
        s.append("/data/");
        assert(s@ == data_dir@ + seq!['/'] + seq!['d', 'a', 't', 'a', '/']);
    }
    let ghost before = s@;
    push_signed_decimal(&mut s, id);
    assert(s@ == before + signed_decimal(id as int));
    proof {
        lemma_join_assoc(data_dir@, id as int);
    }
    s
}

proof fn lemma_join_assoc(dir: Seq<char>, id: int)
    ensures
        dir + seq!['d', 'a', 't', 'a', '/'] + signed_decimal(id) == dir + (seq!['d', 'a', 't', 'a', '/'] + signed_decimal(id)),
        dir + seq!['/'] + seq!['d', 'a', 't', 'a', '/'] + signed_decimal(id) == dir + seq!['/'] + (seq!['d', 'a', 't', 'a', '/'] + signed_decimal(id)),
{
    assert(dir + seq!['d', 'a', 't', 'a', '/'] + signed_decimal(id) =~= dir + (seq!['d', 'a', 't', 'a', '/'] + signed_decimal(id)));
    assert(dir + seq!['/'] + seq!['d', 'a', 't', 'a', '/'] + signed_decimal(id) =~= dir + seq!['/'] + (seq!['d', 'a', 't', 'a', '/'] + signed_decimal(id)));
}

/// Builds the link to blob `id`.
pub fn blob_url(base: &str, id: i64) -> (r: String)
    ensures
        r@ == blob_link(base@, id as int),
{
    let mut s = String::from_str(base);
    proof {
        reveal_strlit("/img/");
    }
    s.append("/img/");
    push_signed_decimal(&mut s, id);
    s
}

/// Builds the link to paste `id`.
pub fn paste_url(base: &str, id: i64) -> (r: String)
    ensures
        r@ == paste_link(base@, id as int),
{
    let mut s = String::from_str(base);
    proof {
        reveal_strlit("/paste/");
    }
    s.append("/paste/");
    push_signed_decimal(&mut s, id);
    s
}

/// Builds the `Cache-Control` value for blobs that live `secs` seconds.
pub fn cache_control(secs: u64) -> (r: String)
    ensures
        r@ == max_age(secs as nat),
{
    let mut s = String::from_str("max-age=");
    proof {
        reveal_strlit("max-age=");
    }
    push_decimal(&mut s, secs);
    s
}

} // verus!
