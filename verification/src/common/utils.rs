use vstd::prelude::*;

verus! {

/// The characters of a string slice.
pub fn chars_of(s: &str) -> (r: Vec<char>)
    ensures
        r@ == s@,
{
    let n = s.unicode_len();
    let mut r: Vec<char> = Vec::new();
    let mut i: usize = 0;
    while i < n
        invariant
            n == s@.len(),
            0 <= i <= n,
            r@ == s@.take(i as int),
        decreases n - i,
    {
        r.push(s.get_char(i));
        i = i + 1;
        assert(r@ =~= s@.take(i as int));
    }
    assert(r@ =~= s@);
    r
}

/// Where the last path segment of `s` begins: just after its last `/`, or
/// at 0.
pub open spec fn segment_start(s: Seq<char>) -> int
    decreases s.len(),
{
    if s.len() == 0 {
        0
    } else if s.last() == '/' {
        s.len() as int
    } else {
        segment_start(s.drop_last())
    }
}

pub proof fn lemma_segment_start(s: Seq<char>)
    ensures
        0 <= segment_start(s) <= s.len(),
        segment_start(s) > 0 ==> s[segment_start(s) - 1] == '/',
        forall|i: int| segment_start(s) <= i < s.len() ==> s[i] != '/',
    decreases s.len(),
{
    if s.len() > 0 && s.last() != '/' {
        lemma_segment_start(s.drop_last());
        assert forall|i: int| segment_start(s) <= i < s.len() implies s[i] != '/' by {
            if i < s.len() - 1 {
                assert(s.drop_last()[i] == s[i]);
            }
        }
    }
}

/// The file name of a path, as `std::path::Path::file_name` reads it on
/// Unix: its last segment, skipping empty and `.` segments; none when that
/// segment is `..` or there is none.
pub open spec fn file_name_of(s: Seq<char>) -> Option<Seq<char>>
    decreases s.len(),
{
    if s.len() == 0 {
        None
    } else {
        let k = segment_start(s);
        proof {
            lemma_segment_start(s);
        }
        let seg = s.subrange(k, s.len() as int);
        if seg.len() == 0 || seg == seq!['.'] {
            if k == 0 {
                None
            } else {
                file_name_of(s.subrange(0, k - 1))
            }
        } else if seg == seq!['.', '.'] {
            None
        } else {
            Some(seg)
        }
    }
}

/// Where the last `.` of `name` stands, or -1.
pub open spec fn last_dot(name: Seq<char>) -> int
    decreases name.len(),
{
    if name.len() == 0 {
        -1
    } else if name.last() == '.' {
        name.len() - 1
    } else {
        last_dot(name.drop_last())
    }
}

pub proof fn lemma_last_dot(name: Seq<char>)
    ensures
        -1 <= last_dot(name) < name.len(),
        last_dot(name) >= 0 ==> name[last_dot(name)] == '.',
        forall|i: int| last_dot(name) < i < name.len() ==> name[i] != '.',
    decreases name.len(),
{
    if name.len() > 0 && name.last() != '.' {
        lemma_last_dot(name.drop_last());
        assert forall|i: int| last_dot(name) < i < name.len() implies name[i] != '.' by {
            if i < name.len() - 1 {
                assert(name.drop_last()[i] == name[i]);
            }
        }
    }
}

/// The extension of a file name: what follows its last `.`, unless that
/// `.` begins the name or there is none.
pub open spec fn extension_of(name: Seq<char>) -> Option<Seq<char>> {
    let d = last_dot(name);
    if d <= 0 {
        None
    } else {
        Some(name.subrange(d + 1, name.len() as int))
    }
}

/// The extensions of the image files that are picked up.
pub open spec fn is_image_extension(ext: Seq<char>) -> bool {
    ||| ext == seq!['j', 'p', 'g']
    ||| ext == seq!['J', 'P', 'G']
    ||| ext == seq!['p', 'n', 'g']
    ||| ext == seq!['P', 'N', 'G']
}

/// Whether the path names a file with an image extension.
pub open spec fn matches_image_extension(path: Seq<char>) -> bool {
    file_name_of(path) matches Some(name) && extension_of(name) matches Some(ext)
        && is_image_extension(ext)
}

/// Whether `chars[start..end]` is the text `word`.
fn chars_equal(chars: &Vec<char>, start: usize, end: usize, word: &[char]) -> (r: bool)
    requires
        start <= end <= chars@.len(),
    ensures
        r == (chars@.subrange(start as int, end as int) == word@),
{
    if end - start != word.len() {
        return false;
    }
    let mut i: usize = 0;
    while i < word.len()
        invariant
            start <= end <= chars@.len(),
            end - start == word@.len(),
            0 <= i <= word@.len(),
            forall|j: int| 0 <= j < i ==> chars@[start + j] == word@[j],
        decreases word@.len() - i,
    {
        if chars[start + i] != word[i] {
            assert(chars@.subrange(start as int, end as int)[i as int] != word@[i as int]);
            return false;
        }
        i = i + 1;
    }
    assert(chars@.subrange(start as int, end as int) =~= word@);
    true
}

/// Where the file name of the path `chars` stands in it.
fn file_name_bounds(chars: &Vec<char>) -> (r: Option<(usize, usize)>)
    ensures
        match r {
            Some((a, b)) => a <= b <= chars@.len() && file_name_of(chars@) == Some(
                chars@.subrange(a as int, b as int),
            ),
            None => file_name_of(chars@) is None,
        },
{
    let ghost s = chars@;
    let mut end: usize = chars.len();
    assert(s.take(end as int) =~= s);
    loop
        invariant
            chars@ == s,
            end <= s.len(),
            file_name_of(s) == file_name_of(s.take(end as int)),
        decreases end,
    {
        let ghost t = s.take(end as int);
        if end == 0 {
            assert(t =~= Seq::<char>::empty());
            return None;
        }
        assert(t.take(end as int) =~= t);
        let mut k: usize = end;
        while k > 0 && chars[k - 1] != '/'
            invariant
                chars@ == s,
                k <= end <= s.len(),
                t == s.take(end as int),
                segment_start(t) == segment_start(t.take(k as int)),
            decreases k,
        {
            assert(t.take(k as int).drop_last() =~= t.take(k - 1));
            k = k - 1;
        }
        proof {
            if k > 0 {
                assert(t.take(k as int).last() == '/');
            }
            assert(t.take(0) =~= Seq::<char>::empty());
            assert(segment_start(t) == k);
            assert(t.subrange(k as int, end as int) =~= s.subrange(k as int, end as int));
        }
        if end == k || (end - k == 1 && chars[k] == '.') {
            if k == 0 {
                proof {
                    if end == 1 {
                        assert(t.subrange(0, 1) =~= seq!['.']);
                    }
                }
                return None;
            }
            proof {
                if end - k == 1 {
                    assert(t.subrange(k as int, end as int) =~= seq!['.']);
                }
                assert(t.subrange(0, k - 1) =~= s.take(k - 1));
            }
            end = k - 1;
        } else if end - k == 2 && chars[k] == '.' && chars[k + 1] == '.' {
            proof {
                assert(t.subrange(k as int, end as int) =~= seq!['.', '.']);
            }
            return None;
        } else {
            proof {
                if end - k == 1 {
                    assert(t.subrange(k as int, end as int)[0] != '.');
                }
                if end - k == 2 {
                    assert(t.subrange(k as int, end as int)[0] != '.' || t.subrange(
                        k as int,
                        end as int,
                    )[1] != '.');
                }
            }
            return Some((k, end));
        }
    }
}

/// Where the extension of the file name `chars[start..end]` begins.
fn extension_start(chars: &Vec<char>, start: usize, end: usize) -> (r: Option<usize>)
    requires
        start <= end <= chars@.len(),
    ensures
        match r {
            Some(d) => start < d <= end && extension_of(chars@.subrange(start as int, end as int))
                == Some(chars@.subrange(d as int, end as int)),
            None => extension_of(chars@.subrange(start as int, end as int)) is None,
        },
{
    let ghost s = chars@;
    let ghost name = s.subrange(start as int, end as int);
    assert(name.take(end - start) =~= name);
    let mut d: usize = end;
    while d > start && chars[d - 1] != '.'
        invariant
            chars@ == s,
            start <= d <= end <= s.len(),
            name == s.subrange(start as int, end as int),
            last_dot(name) == last_dot(name.take(d - start)),
        decreases d,
    {
        assert(name.take(d - start).drop_last() =~= name.take(d - 1 - start));
        d = d - 1;
    }
    proof {
        assert(name.take(0) =~= Seq::<char>::empty());
        if d > start {
            assert(name.take(d - start).last() == '.');
        }
    }
    if d - start <= 1 {
        return None;
    }
    proof {
        assert(name.subrange(d - start, name.len() as int) =~= s.subrange(d as int, end as int));
    }
    Some(d)
}

/// Whether `path` names a file whose extension is `jpg`, `JPG`, `png` or
/// `PNG` (as `std::path::Path::extension` reads a path on Unix).
pub fn path_matches_ext(path: &str) -> (r: bool)
    ensures
        r == matches_image_extension(path@),
{
    let chars = chars_of(path);
    let (name_start, name_end) = match file_name_bounds(&chars) {
        Some(bounds) => bounds,
        None => {
            return false;
        },
    };
    let d = match extension_start(&chars, name_start, name_end) {
        Some(d) => d,
        None => {
            return false;
        },
    };
    let jpg_lower: [char; 3] = ['j', 'p', 'g'];
    let jpg_upper: [char; 3] = ['J', 'P', 'G'];
    let png_lower: [char; 3] = ['p', 'n', 'g'];
    let png_upper: [char; 3] = ['P', 'N', 'G'];
    proof {
        assert(jpg_lower@ =~= seq!['j', 'p', 'g']);
        assert(jpg_upper@ =~= seq!['J', 'P', 'G']);
        assert(png_lower@ =~= seq!['p', 'n', 'g']);
        assert(png_upper@ =~= seq!['P', 'N', 'G']);
    }
    chars_equal(&chars, d, name_end, jpg_lower.as_slice()) || chars_equal(
        &chars,
        d,
        name_end,
        jpg_upper.as_slice(),
    ) || chars_equal(&chars, d, name_end, png_lower.as_slice()) || chars_equal(
        &chars,
        d,
        name_end,
        png_upper.as_slice(),
    )
}

} // verus!
