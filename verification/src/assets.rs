use vstd::prelude::*;
use vstd::string::{StrSliceExecFns, StringExecFns};

verus! {

/// Whether `name` holds no separator.
pub open spec fn is_name(name: Seq<char>) -> bool {
    forall|i: int| 0 <= i < name.len() ==> name[i] != '/'
}

/// Whether a segment of a request path may become part of a file path: it is
/// not the name of the parent directory, and it holds no separator.
pub open spec fn is_safe_segment(segment: Seq<char>) -> bool {
    &&& segment != seq!['.', '.']
    &&& is_name(segment)
}

/// Whether every one of `segments` is safe.
pub open spec fn all_safe(segments: Seq<Seq<char>>) -> bool {
    forall|i: int| 0 <= i < segments.len() ==> is_safe_segment(#[trigger] segments[i])
}

/// The path of a static file: the root, `site`, and then each segment of the
/// request path behind a separator.
pub open spec fn asset_path(segments: Seq<Seq<char>>) -> Seq<char>
    decreases segments.len(),
{
    if segments.len() == 0 {
        "site"@
    } else {
        asset_path(segments.drop_last()) + seq!['/'] + segments.last()
    }
}

/// The segments as texts.
pub open spec fn texts(segments: Seq<String>) -> Seq<Seq<char>> {
    Seq::new(segments.len(), |i: int| segments[i]@)
}

/// Tests `is_safe_segment`.
pub fn is_safe(segment: &str) -> (r: bool)
    ensures
        r == is_safe_segment(segment@),
{
    let n = segment.unicode_len();
    if n == 2 && segment.get_char(0) == '.' && segment.get_char(1) == '.' {
        assert(segment@ =~= seq!['.', '.']);
        return false;
    }
    let mut i: usize = 0;
    while i < n
        invariant
            i <= n,
            n == segment@.len(),
            forall|j: int| 0 <= j < i ==> segment@[j] != '/',
        decreases n - i,
    {
        if segment.get_char(i) == '/' {
            return false;
        }
        i += 1;
    }
    true
}

/// The path of the static file that a request path names, segment by
/// segment: `Some` with the path below the root where every segment is safe,
/// `None` where one is not, so that no request reaches a file outside the
/// root.
pub fn static_file_path(segments: &Vec<String>) -> (r: Option<String>)
    ensures
        match r {
            Some(path) => all_safe(texts(segments@)) && path@ == asset_path(texts(segments@)),
            None => !all_safe(texts(segments@)),
        },
{
    let mut path = String::from_str("site");
    let mut i: usize = 0;
    assert(texts(segments@).take(0) =~= Seq::<Seq<char>>::empty());
    while i < segments.len()
        invariant
            i <= segments.len(),
            path@ == asset_path(texts(segments@).take(i as int)),
            all_safe(texts(segments@).take(i as int)),
        decreases segments.len() - i,
    {
        let segment = segments[i].as_str();
        assert(segment@ == texts(segments@)[i as int]);
        if !is_safe(segment) {
            return None;
        }
        path.append("/");
        path.append(segment);
        proof {
            reveal_strlit("/");
            let before = texts(segments@).take(i as int);
            let now = texts(segments@).take(i + 1);
            assert(now.drop_last() =~= before);
            assert(now.last() == segment@);
            assert("/"@ =~= seq!['/']);
            assert forall|j: int| 0 <= j < now.len() implies is_safe_segment(#[trigger] now[j]) by {
                if j < i {
                    assert(now[j] == before[j]);
                }
            }
        }
        i += 1;
    }
    assert(texts(segments@).take(i as int) =~= texts(segments@));
    Some(path)
}

/// Where the last separator of `path` stands; -1 where it has none.
pub open spec fn last_separator(path: Seq<char>) -> int
    decreases path.len(),
{
    if path.len() == 0 {
        -1
    } else if path.last() == '/' {
        path.len() - 1
    } else {
        last_separator(path.drop_last())
    }
}

/// The names that `path` is made of: what stands before, between and behind
/// its separators, from left to right.
pub open spec fn components(path: Seq<char>) -> Seq<Seq<char>>
    decreases path.len(),
{
    let at = last_separator(path);
    if 0 <= at < path.len() {
        components(path.subrange(0, at)).push(path.subrange(at + 1, path.len() as int))
    } else {
        seq![path]
    }
}

proof fn lemma_name_has_no_separator(name: Seq<char>)
    requires
        is_name(name),
    ensures
        last_separator(name) == -1,
    decreases name.len(),
{
    if name.len() > 0 {
        lemma_name_has_no_separator(name.drop_last());
    }
}

proof fn lemma_separator_before_name(prefix: Seq<char>, name: Seq<char>)
    requires
        is_name(name),
    ensures
        last_separator(prefix + seq!['/'] + name) == prefix.len(),
    decreases name.len(),
{
    let path = prefix + seq!['/'] + name;
    if name.len() == 0 {
        assert(path.last() == '/');
    } else {
        assert(path.last() == name.last());
        assert(path.drop_last() =~= prefix + seq!['/'] + name.drop_last());
        lemma_separator_before_name(prefix, name.drop_last());
    }
}

proof fn lemma_components_of_asset_path(segments: Seq<Seq<char>>)
    requires
        all_safe(segments),
    ensures
        components(asset_path(segments)) == seq!["site"@] + segments,
    decreases segments.len(),
{
    if segments.len() == 0 {
        reveal_strlit("site");
        lemma_name_has_no_separator("site"@);
        assert(components("site"@) =~= seq!["site"@] + segments);
    } else {
        let before = asset_path(segments.drop_last());
        let name = segments.last();
        let path = before + seq!['/'] + name;
        assert(is_safe_segment(name));
        assert(all_safe(segments.drop_last())) by {
            assert forall|i: int| 0 <= i < segments.drop_last().len() implies is_safe_segment(
                #[trigger] segments.drop_last()[i],
            ) by {
                assert(segments.drop_last()[i] == segments[i]);
            }
        }
        lemma_components_of_asset_path(segments.drop_last());
        lemma_separator_before_name(before, name);
        assert(path.subrange(0, before.len() as int) =~= before);
        assert(path.subrange(before.len() as int + 1, path.len() as int) =~= name);
        assert(components(path) == components(before).push(name));
        assert(components(before).push(name) =~= seq!["site"@] + segments);
    }
}

/// A file that is served lies below the root. Split at its separators, the
/// path that `static_file_path` builds from safe segments is the root's name
/// followed by those segments: it starts at the root, and none of its names
/// leads back up to a parent directory.
pub proof fn served_path_stays_below_root(segments: Seq<Seq<char>>)
    requires
        all_safe(segments),
    ensures
        components(asset_path(segments)) == seq!["site"@] + segments,
        components(asset_path(segments))[0] == "site"@,
        forall|i: int|
            0 <= i < components(asset_path(segments)).len() ==> #[trigger] components(
                asset_path(segments),
            )[i] != seq!['.', '.'],
{
    lemma_components_of_asset_path(segments);
    reveal_strlit("site");
    let names = components(asset_path(segments));
    assert forall|i: int| 0 <= i < names.len() implies #[trigger] names[i] != seq!['.', '.'] by {
        if i == 0 {
            assert(names[0].len() == 4);
            assert(seq!['.', '.'].len() == 2);
        } else {
            assert(names[i] == segments[i - 1]);
            assert(is_safe_segment(segments[i - 1]));
        }
    }
}

} // verus!
