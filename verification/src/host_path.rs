use vstd::prelude::*;
use vstd::utf8::{valid_utf8, decode_utf8};

verus! {

/// Calls `String::from_utf8`, which takes the bytes over as a string when
/// they are well-formed UTF-8 and refuses them otherwise; the contract says
/// this over vstd's definition of well-formed UTF-8 and of its decoding.
#[verifier::external_body]
fn string_from_utf8(bytes: Vec<u8>) -> (r: Option<String>)
    ensures
        r is Some <==> valid_utf8(bytes@),
        r matches Some(s) ==> s@ == decode_utf8(bytes@),
{
    match String::from_utf8(bytes) {
        Ok(s) => Some(s),
        Err(_) => None,
    }
}

/// The text that the native path query left in its buffer: none when the
/// query reported a nonzero status or the buffer is not UTF-8, else the
/// whole buffer decoded, zero padding included.
pub open spec fn spec_hostfxr_path(status: i32, buffer: Seq<u8>) -> Option<Seq<char>> {
    if status != 0 || !valid_utf8(buffer) {
        None
    } else {
        Some(decode_utf8(buffer))
    }
}

/// Turns the outcome of the native hostfxr path query (its status and the
/// buffer it filled) into the path text.
pub fn hostfxr_path_from_buffer(status: i32, buffer: Vec<u8>) -> (r: Option<String>)
    ensures
        r is Some <==> spec_hostfxr_path(status, buffer@) is Some,
        r matches Some(p) ==> Some(p@) == spec_hostfxr_path(status, buffer@),
{
    if status != 0 {
        return None;
    }
    string_from_utf8(buffer)
}

/// `s` without its leading NUL characters.
pub open spec fn trim_leading_nul(s: Seq<char>) -> Seq<char>
    decreases s.len(),
{
    if s.len() > 0 && s[0] == '\0' {
        trim_leading_nul(s.drop_first())
    } else {
        s
    }
}

/// `s` without its trailing NUL characters.
pub open spec fn trim_trailing_nul(s: Seq<char>) -> Seq<char>
    decreases s.len(),
{
    if s.len() > 0 && s.last() == '\0' {
        trim_trailing_nul(s.drop_last())
    } else {
        s
    }
}

/// `s` without the NUL characters at either end.
pub open spec fn trim_nul(s: Seq<char>) -> Seq<char> {
    trim_trailing_nul(trim_leading_nul(s))
}

proof fn lemma_skip_leading_nuls(s: Seq<char>, k: int)
    requires
        0 <= k <= s.len(),
        forall|j: int| 0 <= j < k ==> s[j] == '\0',
    ensures
        trim_leading_nul(s) == trim_leading_nul(s.subrange(k, s.len() as int)),
    decreases k,
{
    if k == 0 {
        assert(s.subrange(0, s.len() as int) =~= s);
    } else {
        lemma_skip_leading_nuls(s.drop_first(), k - 1);
        assert(s.drop_first().subrange(k - 1, s.drop_first().len() as int) =~= s.subrange(
            k,
            s.len() as int,
        ));
    }
}

proof fn lemma_skip_trailing_nuls(s: Seq<char>, k: int)
    requires
        0 <= k <= s.len(),
        forall|j: int| k <= j < s.len() ==> s[j] == '\0',
    ensures
        trim_trailing_nul(s) == trim_trailing_nul(s.subrange(0, k)),
    decreases s.len() - k,
{
    if k == s.len() {
        assert(s.subrange(0, k) =~= s);
    } else {
        lemma_skip_trailing_nuls(s.drop_last(), k);
        assert(s.drop_last().subrange(0, k) =~= s.subrange(0, k));
    }
}

fn collect_chars(s: &str) -> (v: Vec<char>)
    ensures
        v@ == s@,
{
    let mut v: Vec<char> = Vec::new();
    proof {
        vstd::string::axiom_spec_iter(s);
    }
    for c in it: s.chars()
        invariant
            it.seq() == s@,
            v@ == s@.take(it.index() as int),
    {
        v.push(c);
        assert(v@ =~= s@.take(it.index() + 1));
    }
    assert(s@.take(s@.len() as int) =~= s@);
    v
}

/// Removes the NUL characters at both ends of `s`, as
/// `str::trim_matches(char::from(0))` does.
pub fn trim_nul_chars(s: &str) -> (r: String)
    ensures
        r@ == trim_nul(s@),
{
    let chars = collect_chars(s);
    let n = chars.len();
    let mut start: usize = 0;
    while start < n && chars[start] == '\0'
        invariant
            chars@ == s@,
            n == s@.len(),
            start <= n,
            forall|j: int| 0 <= j < start ==> s@[j] == '\0',
        decreases n - start,
    {
        start = start + 1;
    }
    let mut end: usize = n;
    while end > start && chars[end - 1] == '\0'
        invariant
            chars@ == s@,
            n == s@.len(),
            start <= end <= n,
            forall|j: int| end <= j < n ==> s@[j] == '\0',
        decreases end,
    {
        end = end - 1;
    }
    proof {
        let t = s@.subrange(start as int, n as int);
        lemma_skip_leading_nuls(s@, start as int);
        if start < n {
            assert(t[0] == s@[start as int]);
        }
        assert(trim_leading_nul(t) == t);
        lemma_skip_trailing_nuls(t, (end - start) as int);
        let u = t.subrange(0, (end - start) as int);
        if end > start {
            assert(u.last() == s@[end - 1]);
        }
        assert(trim_trailing_nul(u) == u);
        assert(u =~= s@.subrange(start as int, end as int));
    }
    s.substring_char(start, end).to_owned()
}

/// The path `file` joined onto the directory `dir` as a Unix path: an
/// absolute `file` replaces `dir`; otherwise a `/` separates the two unless
/// `dir` is empty or already ends with one.
pub open spec fn join_path_spec(dir: Seq<char>, file: Seq<char>) -> Seq<char> {
    if file.len() > 0 && file[0] == '/' {
        file
    } else if dir.len() == 0 || dir.last() == '/' {
        dir + file
    } else {
        dir + seq!['/'] + file
    }
}

/// Joins the file name `file` onto the directory `dir`, as `Path::join`
/// does on Unix.
pub fn join_path(dir: &str, file: &str) -> (r: String)
    ensures
        r@ == join_path_spec(dir@, file@),
{
    let file_len = file.unicode_len();
    if file_len > 0 && file.get_char(0) == '/' {
        return file.to_owned();
    }
    let dir_len = dir.unicode_len();
    let mut r = dir.to_owned();
    if dir_len > 0 && dir.get_char(dir_len - 1) != '/' {
        r.append("/");
        proof {
            reveal_strlit("/");
        }
    }
    r.append(file);
    r
}


proof fn lemma_trim_leading_shape(s: Seq<char>)
    ensures
        trim_leading_nul(s).len() <= s.len(),
        trim_leading_nul(s).len() > 0 ==> trim_leading_nul(s)[0] != '\0',
        trim_leading_nul(s) =~= s.subrange(s.len() - trim_leading_nul(s).len(), s.len() as int),
    decreases s.len(),
{
    if s.len() > 0 && s[0] == '\0' {
        lemma_trim_leading_shape(s.drop_first());
    }
}

proof fn lemma_trim_trailing_shape(s: Seq<char>)
    ensures
        trim_trailing_nul(s).len() <= s.len(),
        trim_trailing_nul(s).len() > 0 ==> trim_trailing_nul(s).last() != '\0',
        trim_trailing_nul(s) =~= s.subrange(0, trim_trailing_nul(s).len() as int),
    decreases s.len(),
{
    if s.len() > 0 && s.last() == '\0' {
        lemma_trim_trailing_shape(s.drop_last());
    }
}

/// A trimmed text has no NUL at either end, and trimming it again changes
/// nothing.
pub proof fn law_trim_nul_idempotent(s: Seq<char>)
    ensures
        trim_nul(s).len() > 0 ==> trim_nul(s)[0] != '\0' && trim_nul(s).last() != '\0',
        trim_nul(trim_nul(s)) == trim_nul(s),
{
    let l = trim_leading_nul(s);
    let t = trim_nul(s);
    lemma_trim_leading_shape(s);
    lemma_trim_trailing_shape(l);
    if t.len() > 0 {
        assert(t[0] == l[0]);
    }
    assert(trim_leading_nul(t) == t);
    assert(trim_trailing_nul(t) == t);
}

/// Joining a relative file name onto a directory that does not end in a
/// separator puts exactly one `/` between them.
pub proof fn law_join_relative(dir: Seq<char>, file: Seq<char>)
    requires
        dir.len() > 0,
        dir.last() != '/',
        file.len() == 0 || file[0] != '/',
    ensures
        join_path_spec(dir, file) == dir + seq!['/'] + file,
        join_path_spec(dir, file).subrange(0, dir.len() as int) == dir,
        join_path_spec(dir, file).subrange(dir.len() + 1int, join_path_spec(dir, file).len() as int) == file,
{
    let j = join_path_spec(dir, file);
    assert(j.subrange(0, dir.len() as int) =~= dir);
    assert(j.subrange(dir.len() + 1int, j.len() as int) =~= file);
}

} // verus!
