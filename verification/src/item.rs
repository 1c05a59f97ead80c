//! Data model: items of the object list and storage addresses.

use vstd::prelude::*;

use crate::text::push_char;

verus! {

/// One entry of the object list: a virtual directory or a concrete object.
///
/// `last_modified` is a point in time on a totally ordered integer scale
/// (seconds relative to the epoch); turning a calendar date into it is the
/// caller's business.
#[derive(Clone, Debug)]
pub enum ObjectItem {
    Dir {
        name: String,
        key: String,
        s3_uri: String,
        object_url: String,
    },
    File {
        name: String,
        size_byte: usize,
        last_modified: i64,
        key: String,
        s3_uri: String,
        arn: String,
        object_url: String,
        e_tag: String,
    },
}

/// The display name of an item.
pub open spec fn item_name(item: ObjectItem) -> Seq<char> {
    match item {
        ObjectItem::Dir { name, .. } => name@,
        ObjectItem::File { name, .. } => name@,
    }
}

/// The byte size of an item; directories have none.
pub open spec fn item_size(item: ObjectItem) -> Option<usize> {
    match item {
        ObjectItem::Dir { .. } => None,
        ObjectItem::File { size_byte, .. } => Some(size_byte),
    }
}

/// The last-modified time of an item; directories have none.
pub open spec fn item_mtime(item: ObjectItem) -> Option<i64> {
    match item {
        ObjectItem::Dir { .. } => None,
        ObjectItem::File { last_modified, .. } => Some(last_modified),
    }
}

impl ObjectItem {
    pub fn name(&self) -> (r: &String)
        ensures
            r@ == item_name(*self),
    {
        match self {
            ObjectItem::Dir { name, .. } => name,
            ObjectItem::File { name, .. } => name,
        }
    }

    pub fn size_byte(&self) -> (r: Option<usize>)
        ensures
            r == item_size(*self),
    {
        match self {
            ObjectItem::Dir { .. } => None,
            ObjectItem::File { size_byte, .. } => Some(*size_byte),
        }
    }

    pub fn last_modified(&self) -> (r: Option<i64>)
        ensures
            r == item_mtime(*self),
    {
        match self {
            ObjectItem::Dir { .. } => None,
            ObjectItem::File { last_modified, .. } => Some(*last_modified),
        }
    }

    pub open spec fn is_file(self) -> bool {
        self is File
    }
}

/// A storage address: a bucket plus an ordered sequence of path segments.
/// Two keys are equal exactly when bucket and segments match.
#[derive(Clone, Debug)]
pub struct ObjectKey {
    pub bucket_name: String,
    pub object_path: Vec<String>,
}

/// The nonempty `/`-separated segments of a path string.
pub open spec fn path_segments(s: Seq<char>) -> Seq<Seq<char>>
    decreases s.len(),
{
    if s.len() == 0 {
        Seq::empty()
    } else if s[0] == '/' {
        path_segments(s.drop_first())
    } else {
        let rest = path_segments(s.drop_first());
        if s.len() > 1 && s[1] != '/' {
            seq![seq![s[0]] + rest[0]] + rest.drop_first()
        } else {
            seq![seq![s[0]]] + rest
        }
    }
}

/// A leading separator-free run is the first segment.
proof fn lemma_path_segments_peel(s: Seq<char>, k: int)
    requires
        0 < k <= s.len(),
        forall|j: int| 0 <= j < k ==> s[j] != '/',
        k < s.len() ==> s[k] == '/',
    ensures
        path_segments(s) == seq![s.take(k)] + path_segments(s.skip(k)),
    decreases k,
{
    if k == 1 {
        if s.len() > 1 && s[1] != '/' {
            assert(false);
        }
        assert(s.take(1) =~= seq![s[0]]);
        assert(s.drop_first() =~= s.skip(1));
    } else {
        assert(s[1] != '/');
        lemma_path_segments_peel(s.drop_first(), k - 1);
        assert(s.drop_first().take(k - 1) =~= s.take(k).drop_first());
        assert(s.drop_first().skip(k - 1) =~= s.skip(k));
        let rest = path_segments(s.drop_first());
        assert(rest == seq![s.take(k).drop_first()] + path_segments(s.skip(k)));
        assert(rest[0] == s.take(k).drop_first());
        assert(seq![s[0]] + rest[0] =~= s.take(k));
        assert(rest.drop_first() =~= path_segments(s.skip(k)));
        assert(path_segments(s) =~= seq![s.take(k)] + path_segments(s.skip(k)));
    }
}

/// The given segments joined with single separators.
pub open spec fn join_segments(ss: Seq<Seq<char>>) -> Seq<char>
    decreases ss.len(),
{
    if ss.len() == 0 {
        Seq::empty()
    } else if ss.len() == 1 {
        ss[0]
    } else {
        ss[0] + seq!['/'] + join_segments(ss.drop_first())
    }
}

proof fn lemma_join_segments_push(ss: Seq<Seq<char>>, x: Seq<char>)
    ensures
        join_segments(ss.push(x)) == (if ss.len() == 0 {
            x
        } else {
            join_segments(ss) + seq!['/'] + x
        }),
    decreases ss.len(),
{
    if ss.len() == 0 {
        assert(ss.push(x)[0] == x);
    } else {
        assert(ss.push(x).drop_first() =~= ss.drop_first().push(x));
        lemma_join_segments_push(ss.drop_first(), x);
        if ss.len() == 1 {
            assert(join_segments(ss.push(x)) =~= ss[0] + seq!['/'] + x);
            assert(join_segments(ss) == ss[0]);
        } else {
            assert(join_segments(ss.push(x)) =~= join_segments(ss) + seq!['/'] + x);
        }
    }
}

impl ObjectKey {
    /// Build a key from a bucket and a path string, splitting the path on `/`
    /// and dropping empty segments.
    pub fn with_prefix(bucket_name: String, prefix: String) -> (r: ObjectKey)
        ensures
            r.bucket_name == bucket_name,
            r.object_path.deep_view() == path_segments(prefix@),
    {
        let s = prefix.as_str();
        let n = s.unicode_len();
        let mut object_path: Vec<String> = Vec::new();
        let mut pos: usize = 0;
        proof {
            assert(object_path.deep_view() =~= Seq::<Seq<char>>::empty());
            assert(s@.skip(0) =~= s@);
            assert(Seq::<Seq<char>>::empty() + path_segments(s@) =~= path_segments(s@));
        }
        while pos < n
            invariant
                n == s@.len(),
                pos <= n,
                object_path.deep_view() + path_segments(s@.skip(pos as int)) == path_segments(s@),
            decreases n - pos,
        {
            if s.get_char(pos) == '/' {
                proof {
                    assert(s@.skip(pos as int).drop_first() =~= s@.skip(pos + 1));
                }
                pos = pos + 1;
            } else {
                let seg_start = pos;
                let mut e: usize = pos;
                while e < n && s.get_char(e) != '/'
                    invariant
                        n == s@.len(),
                        seg_start <= e <= n,
                        forall|j: int| seg_start <= j < e ==> s@[j] != '/',
                    decreases n - e,
                {
                    e = e + 1;
                }
                let piece = s.substring_char(seg_start, e).to_owned();
                let ghost old_dv = object_path.deep_view();
                object_path.push(piece);
                proof {
                    let rem = s@.skip(seg_start as int);
                    assert(forall|j: int| 0 <= j < e - seg_start ==> #[trigger] rem[j] != '/');
                    lemma_path_segments_peel(rem, e - seg_start);
                    assert(rem.take(e - seg_start) =~= s@.subrange(seg_start as int, e as int));
                    assert(rem.skip(e - seg_start) =~= s@.skip(e as int));
                    assert(piece@ == s@.subrange(seg_start as int, e as int));
                    assert(object_path.deep_view() =~= old_dv.push(piece@));
                    assert(old_dv.push(piece@) + path_segments(s@.skip(e as int)) =~= old_dv + (
                    seq![piece@] + path_segments(s@.skip(e as int))));
                    assert(seq![piece@] + path_segments(s@.skip(e as int)) =~= path_segments(rem));
                }
                pos = e;
            }
        }
        proof {
            assert(s@.skip(n as int) =~= Seq::<char>::empty());
            assert(object_path.deep_view() + Seq::<Seq<char>>::empty() =~= object_path.deep_view());
        }
        ObjectKey { bucket_name, object_path }
    }

    /// The key's path as a string, the segments joined with `/`; with
    /// `include_bucket` the bucket name and a separator come first.
    pub fn joined_object_path(&self, include_bucket: bool) -> (r: String)
        ensures
            !include_bucket ==> r@ == join_segments(self.object_path.deep_view()),
            include_bucket ==> r@ == self.bucket_name@ + seq!['/'] + join_segments(
                self.object_path.deep_view(),
            ),
    {
        let mut out = String::new();
        if include_bucket {
            out.append(self.bucket_name.as_str());
            push_char(&mut out, '/');
            proof {
                assert(out@ =~= self.bucket_name@ + seq!['/']);
            }
        }
        let ghost lead = out@;
        let mut i: usize = 0;
        proof {
            assert(join_segments(self.object_path.deep_view().take(0)) =~= Seq::<char>::empty());
            assert(out@ =~= lead + join_segments(self.object_path.deep_view().take(0)));
        }
        while i < self.object_path.len()
            invariant
                i <= self.object_path@.len(),
                out@ == lead + join_segments(self.object_path.deep_view().take(i as int)),
            decreases self.object_path@.len() - i,
        {
            if i > 0 {
                push_char(&mut out, '/');
            }
            out.append(self.object_path[i].as_str());
            proof {
                let dv = self.object_path.deep_view();
                assert(dv.take(i + 1) =~= dv.take(i as int).push(dv[i as int]));
                lemma_join_segments_push(dv.take(i as int), dv[i as int]);
                assert(dv[i as int] == self.object_path@[i as int]@);
                if i > 0 {
                    assert(out@ =~= lead + (join_segments(dv.take(i as int)) + seq!['/']
                        + dv[i as int]));
                } else {
                    assert(dv.take(0).len() == 0);
                    assert(out@ =~= lead + dv[0]);
                }
            }
            i = i + 1;
        }
        proof {
            assert(self.object_path.deep_view().take(self.object_path@.len() as int)
                =~= self.object_path.deep_view());
        }
        out
    }
}

/// Two keys addressing the same object: same bucket, same segments.
pub open spec fn same_key(a: ObjectKey, b: ObjectKey) -> bool {
    a.bucket_name@ == b.bucket_name@ && a.object_path.deep_view() == b.object_path.deep_view()
}

/// Two items carrying the same data, field for field.
pub open spec fn same_item(a: ObjectItem, b: ObjectItem) -> bool {
    match (a, b) {
        (
            ObjectItem::Dir { name: n1, key: k1, s3_uri: u1, object_url: o1 },
            ObjectItem::Dir { name: n2, key: k2, s3_uri: u2, object_url: o2 },
        ) => n1@ == n2@ && k1@ == k2@ && u1@ == u2@ && o1@ == o2@,
        (
            ObjectItem::File {
                name: n1,
                size_byte: s1,
                last_modified: m1,
                key: k1,
                s3_uri: u1,
                arn: a1,
                object_url: o1,
                e_tag: e1,
            },
            ObjectItem::File {
                name: n2,
                size_byte: s2,
                last_modified: m2,
                key: k2,
                s3_uri: u2,
                arn: a2,
                object_url: o2,
                e_tag: e2,
            },
        ) => n1@ == n2@ && s1 == s2 && m1 == m2 && k1@ == k2@ && u1@ == u2@ && a1@ == a2@ && o1@
            == o2@ && e1@ == e2@,
        _ => false,
    }
}

/// A copy of a key, equal to the original address for address.
pub fn copy_key(k: &ObjectKey) -> (r: ObjectKey)
    ensures
        same_key(r, *k),
{
    let mut object_path: Vec<String> = Vec::new();
    let mut i: usize = 0;
    proof {
        assert(object_path.deep_view() =~= k.object_path.deep_view().take(0));
    }
    while i < k.object_path.len()
        invariant
            i <= k.object_path@.len(),
            object_path.deep_view() == k.object_path.deep_view().take(i as int),
        decreases k.object_path@.len() - i,
    {
        let ghost old_dv = object_path.deep_view();
        let c = k.object_path[i].clone();
        proof {
            assert(c == k.object_path@[i as int]);
        }
        object_path.push(c);
        proof {
            assert(object_path.deep_view() =~= old_dv.push(k.object_path@[i as int]@));
            assert(k.object_path.deep_view().take(i + 1) =~= old_dv.push(
                k.object_path@[i as int]@,
            ));
        }
        i = i + 1;
    }
    proof {
        assert(k.object_path.deep_view().take(k.object_path@.len() as int) =~= k.object_path.deep_view());
    }
    ObjectKey { bucket_name: k.bucket_name.clone(), object_path }
}

/// A copy of an item, equal to the original field for field.
pub fn copy_item(it: &ObjectItem) -> (r: ObjectItem)
    ensures
        same_item(r, *it),
{
    match it {
        ObjectItem::Dir { name, key, s3_uri, object_url } => ObjectItem::Dir {
            name: name.clone(),
            key: key.clone(),
            s3_uri: s3_uri.clone(),
            object_url: object_url.clone(),
        },
        ObjectItem::File { name, size_byte, last_modified, key, s3_uri, arn, object_url, e_tag } => {
            ObjectItem::File {
                name: name.clone(),
                size_byte: *size_byte,
                last_modified: *last_modified,
                key: key.clone(),
                s3_uri: s3_uri.clone(),
                arn: arn.clone(),
                object_url: object_url.clone(),
                e_tag: e_tag.clone(),
            }
        },
    }
}

/// One enumerated object queued for a bulk download.
#[derive(Clone, Debug)]
pub struct DownloadObjectInfo {
    pub key: String,
    pub size_byte: usize,
}

/// The total byte size of a queued object set.
pub open spec fn sum_sizes(objs: Seq<DownloadObjectInfo>) -> int
    decreases objs.len(),
{
    if objs.len() == 0 {
        0
    } else {
        objs[0].size_byte + sum_sizes(objs.drop_first())
    }
}

proof fn lemma_sum_sizes_push(objs: Seq<DownloadObjectInfo>, x: DownloadObjectInfo)
    ensures
        sum_sizes(objs.push(x)) == sum_sizes(objs) + x.size_byte,
    decreases objs.len(),
{
    reveal_with_fuel(sum_sizes, 2);
    if objs.len() == 0 {
        assert(objs.push(x).drop_first() =~= Seq::<DownloadObjectInfo>::empty());
    } else {
        assert(objs.push(x).drop_first() =~= objs.drop_first().push(x));
        lemma_sum_sizes_push(objs.drop_first(), x);
    }
}

/// The total size of the objects about to be downloaded, reported in the
/// confirm dialog.
pub fn total_object_size(objs: &Vec<DownloadObjectInfo>) -> (r: u128)
    ensures
        r == sum_sizes(objs@),
{
    let mut r: u128 = 0;
    let mut i: usize = 0;
    proof {
        assert(objs@.take(0) =~= Seq::<DownloadObjectInfo>::empty());
    }
    while i < objs.len()
        invariant
            i <= objs@.len(),
            r == sum_sizes(objs@.take(i as int)),
            r <= (i as u128) * 0xffff_ffff_ffff_ffff,
        decreases objs@.len() - i,
    {
        proof {
            assert(objs@.take(i + 1) =~= objs@.take(i as int).push(objs@[i as int]));
            lemma_sum_sizes_push(objs@.take(i as int), objs@[i as int]);
            assert((i as u128) * 0xffff_ffff_ffff_ffff + 0xffff_ffff_ffff_ffff == ((i + 1) as u128)
                * 0xffff_ffff_ffff_ffff) by (nonlinear_arith);
            assert(((i + 1) as u128) * 0xffff_ffff_ffff_ffff <= 0xffff_ffff_ffff_ffff
                * 0xffff_ffff_ffff_ffff) by (nonlinear_arith)
                requires
                    i + 1 <= 0xffff_ffff_ffff_ffffu128,
            ;
        }
        r = r + objs[i].size_byte as u128;
        i = i + 1;
    }
    proof {
        assert(objs@.take(objs@.len() as int) =~= objs@);
    }
    r
}

/// A single server-side copy request: source and destination addresses.
#[derive(Clone, Debug)]
pub struct PasteSpec {
    pub src_bucket: String,
    pub src_key: String,
    pub dst_bucket: String,
    pub dst_key: String,
}

} // verus!
