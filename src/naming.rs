//! Where the downloaded package is written.

use vstd::prelude::*;

verus! {

/// File name used when the response URL does not end in a usable segment.
pub const DEFAULT_FILE_NAME: &'static str = "vscode.deb";

/// The characters after the last `/` of `p` (all of `p` when it holds none).
pub open spec fn final_segment(p: Seq<char>) -> Seq<char>
    decreases p.len(),
{
    if p.len() == 0 {
        p
    } else if p.last() == '/' {
        Seq::empty()
    } else {
        final_segment(p.drop_last()).push(p.last())
    }
}

/// The file name for a download whose final URL has the path `url_path`.
///
/// A hierarchical URL path starts with `/`; its final segment names the file
/// when it is not empty. Anything else gives the default name.
pub open spec fn file_name_for(url_path: Seq<char>) -> Seq<char> {
    if url_path.len() > 0 && url_path[0] == '/' && final_segment(url_path).len() > 0 {
        final_segment(url_path)
    } else {
        DEFAULT_FILE_NAME@
    }
}

/// `name` placed inside the directory `dir`, as a relative path is pushed onto
/// a Unix path: a separator is added unless `dir` is empty or already ends in one.
pub open spec fn joined(dir: Seq<char>, name: Seq<char>) -> Seq<char> {
    if dir.len() == 0 {
        name
    } else if dir.last() == '/' {
        dir + name
    } else {
        dir + seq!['/'] + name
    }
}

/// The path that a download with final URL path `url_path` is written to.
pub open spec fn destination(temp_dir: Seq<char>, url_path: Seq<char>) -> Seq<char> {
    joined(temp_dir, file_name_for(url_path))
}

/// The file name that a download gets, from the path of its final URL.
pub fn dest_file_name(url_path: &str) -> (r: String)
    ensures
        r@ == file_name_for(url_path@),
{
    let n = url_path.unicode_len();
    let mut start: usize = 0;
    let mut i: usize = 0;
    while i < n
        invariant
            n == url_path@.len(),
            start <= i <= n,
            final_segment(url_path@.subrange(0, i as int)) == url_path@.subrange(start as int, i as int),
        decreases n - i,
    {
        let c = url_path.get_char(i);
        proof {
            let pre = url_path@.subrange(0, i as int);
            let post = url_path@.subrange(0, i + 1);
            assert(post.drop_last() == pre);
            assert(post.last() == c);
        }
        if c == '/' {
            start = i + 1;
        }
        i = i + 1;
        assert(url_path@.subrange(start as int, i as int) =~= if c == '/' {
            Seq::empty()
        } else {
            url_path@.subrange(start as int, i - 1).push(c)
        });
    }
    assert(url_path@.subrange(0, n as int) == url_path@);
    let hierarchical = n > 0 && url_path.get_char(0) == '/';
    if hierarchical && start < n {
        String::from_str(url_path.substring_char(start, n))
    } else {
        String::from_str(DEFAULT_FILE_NAME)
    }
}

/// The path of `name` inside the directory `dir`.
pub fn join_path(dir: &str, name: &str) -> (r: String)
    ensures
        r@ == joined(dir@, name@),
{
    let n = dir.unicode_len();
    if n == 0 {
        String::from_str(name)
    } else if dir.get_char(n - 1) == '/' {
        String::from_str(dir).concat(name)
    } else {
        let with_sep = String::from_str(dir).concat("/");
        proof {
            reveal_strlit("/");
        }
        with_sep.concat(name)
    }
}

/// The path that a download is written to: the file name taken from the final
/// URL's path, inside the temporary directory.
pub fn destination_path(temp_dir: &str, url_path: &str) -> (r: String)
    ensures
        r@ == destination(temp_dir@, url_path@),
{
    let name = dest_file_name(url_path);
    join_path(temp_dir, name.as_str())
}

} // verus!
