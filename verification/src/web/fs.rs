//! Serving files below one directory: which file a request path names, and
//! in what pieces a file is read.

use super::response::{INTERNAL_SERVER_ERROR, NOT_FOUND, OK};
use vstd::prelude::*;
use vstd::slice::slice_subrange;
use vstd::string::StringExecFns;
use vstd::string::StringSliceAdditionalSpecFns;
use vstd::utf8::encode_utf8;

verus! {

/// The byte that separates the segments of a path.
pub const SEPARATOR: u8 = 47;

/// The byte that hidden names and the two special segments begin with.
pub const DOT: u8 = 46;

/// The most bytes read from a file at a time.
pub const CHUNK_SIZE: u64 = 65_536;

/// A request path named a segment that begins with a dot and is not `..`.
#[derive(Debug, PartialEq, Eq)]
pub struct BadSegment;

/// A relative path below the served directory: its components from the
/// outermost inwards, and whether a separator follows the last of them.
#[derive(Debug, PartialEq, Eq)]
pub struct PathPlan {
    pub components: Vec<Vec<u8>>,
    pub trailing: bool,
}

/// A path plan as contracts see it.
pub struct PathPlanView {
    pub components: Seq<Seq<u8>>,
    pub trailing: bool,
}

impl View for PathPlan {
    type V = PathPlanView;

    open spec fn view(&self) -> PathPlanView {
        PathPlanView {
            components: Seq::new(self.components@.len(), |i: int| self.components@[i]@),
            trailing: self.trailing,
        }
    }
}

/// Whether `segment` is `..`.
pub open spec fn is_parent(segment: Seq<u8>) -> bool {
    segment.len() == 2 && segment[0] == DOT && segment[1] == DOT
}

impl PathPlanView {
    /// The empty path.
    pub open spec fn empty() -> PathPlanView {
        PathPlanView { components: Seq::empty(), trailing: false }
    }

    /// The path after one more segment of the request: `..` drops the last
    /// component, if there is one; any other segment that begins with a dot
    /// is refused; an empty segment leaves a separator behind the last
    /// component, if there is one; any other segment becomes the last
    /// component.
    pub open spec fn enter(self, segment: Seq<u8>) -> Option<PathPlanView> {
        if is_parent(segment) {
            if self.components.len() > 0 {
                Some(PathPlanView { components: self.components.drop_last(), trailing: false })
            } else {
                Some(self)
            }
        } else if segment.len() > 0 && segment[0] == DOT {
            None
        } else if segment.len() == 0 {
            Some(PathPlanView { trailing: self.components.len() > 0, ..self })
        } else {
            Some(PathPlanView { components: self.components.push(segment), trailing: false })
        }
    }
}

/// Where the segment that begins at `from` ends: at the next separator, or
/// at the end of `path`.
pub open spec fn segment_end(path: Seq<u8>, from: int) -> int
    decreases path.len() - from,
{
    if from >= path.len() {
        path.len() as int
    } else if path[from] == SEPARATOR {
        from
    } else {
        segment_end(path, from + 1)
    }
}

/// The path that `plan` becomes by entering, one after the other, the
/// segments of `path` from position `from` on; `None` as soon as one is
/// refused.
pub open spec fn walk(path: Seq<u8>, from: int, plan: PathPlanView) -> Option<PathPlanView>
    decreases path.len() - from,
{
    let end = segment_end(path, from);
    if 0 <= from <= end <= path.len() {
        match plan.enter(path.subrange(from, end)) {
            None => None,
            Some(next) => if end >= path.len() {
                Some(next)
            } else {
                walk(path, end + 1, next)
            },
        }
    } else {
        None
    }
}

/// The relative path that a request path names.
pub open spec fn planned(path: Seq<u8>) -> Option<PathPlanView> {
    walk(path, 0, PathPlanView::empty())
}

/// The end of the segment that begins at `from`.
fn find_segment_end(path: &[u8], from: usize) -> (end: usize)
    requires
        from <= path@.len(),
    ensures
        end == segment_end(path@, from as int),
        from <= end <= path@.len(),
{
    let mut i: usize = from;
    while i < path.len() && path[i] != SEPARATOR
        invariant
            from <= i <= path@.len(),
            segment_end(path@, from as int) == segment_end(path@, i as int),
        decreases path@.len() - i,
    {
        i += 1;
    }
    i
}

/// A copy of `bytes[from..to]`.
fn copy_range(bytes: &[u8], from: usize, to: usize) -> (copy: Vec<u8>)
    requires
        from <= to <= bytes@.len(),
    ensures
        copy@ == bytes@.subrange(from as int, to as int),
{
    let mut copy: Vec<u8> = Vec::new();
    let mut i: usize = from;
    while i < to
        invariant
            from <= i <= to <= bytes@.len(),
            copy@ == bytes@.subrange(from as int, i as int),
        decreases to - i,
    {
        copy.push(bytes[i]);
        proof {
            assert(copy@ =~= bytes@.subrange(from as int, i + 1));
        }
        i += 1;
    }
    copy
}

/// The relative path that the request path `path` names, or the refusal of
/// a segment that begins with a dot.
pub fn plan_path(path: &[u8]) -> (outcome: Result<PathPlan, BadSegment>)
    ensures
        match planned(path@) {
            Some(plan) => outcome matches Ok(found) && found@ == plan,
            None => outcome.is_err(),
        },
{
    let mut plan = PathPlan { components: Vec::new(), trailing: false };
    let mut from: usize = 0;
    proof {
        assert(plan@.components =~= Seq::<Seq<u8>>::empty());
    }
    loop
        invariant
            from <= path@.len(),
            planned(path@) == walk(path@, from as int, plan@),
        decreases path@.len() - from,
    {
        let end = find_segment_end(path, from);
        let ghost before = plan@;
        let ghost segment = path@.subrange(from as int, end as int);
        let len: usize = end - from;
        if len == 2 && path[from] == DOT && path[from + 1] == DOT {
            assert(is_parent(segment));
            if plan.components.len() > 0 {
                plan.components.pop();
                plan.trailing = false;
            }
            proof {
                assert(plan@.components =~= before.enter(segment).unwrap().components);
            }
        } else if len > 0 && path[from] == DOT {
            assert(segment[0] == DOT);
            assert(before.enter(segment).is_none());
            return Err(BadSegment);
        } else if len == 0 {
            plan.trailing = plan.components.len() > 0;
            proof {
                assert(!is_parent(segment));
                assert(plan@.components =~= before.components);
            }
        } else {
            let component = copy_range(path, from, end);
            plan.components.push(component);
            plan.trailing = false;
            proof {
                assert(segment[0] == path@[from as int]);
                if len == 2 {
                    assert(segment[1] == path@[from + 1]);
                }
                assert(!is_parent(segment));
                assert(plan@.components =~= before.components.push(segment));
            }
        }
        assert(before.enter(segment) == Some(plan@));
        if end >= path.len() {
            return Ok(plan);
        }
        from = end + 1;
    }
}

/// A mount of one directory under one prefix of the request paths.
#[derive(Debug)]
pub struct Static {
    path: String,
    directory: String,
}

/// What a mount makes of a request path.
#[derive(Debug, PartialEq, Eq)]
pub enum Route {
    /// The path lies outside the mount: the request goes on.
    Pass,
    /// The path names this file below the directory.
    File(PathPlan),
    /// The path lies in the mount and is refused.
    Refused,
}

impl Static {
    /// The prefix as contracts see it.
    pub closed spec fn spec_path(&self) -> Seq<char> {
        self.path@
    }

    /// The directory as contracts see it.
    pub closed spec fn spec_directory(&self) -> Seq<char> {
        self.directory@
    }

    /// The prefix as the bytes of its UTF-8 encoding.
    pub open spec fn prefix_bytes(&self) -> Seq<u8> {
        encode_utf8(self.spec_path())
    }

    /// The mount of `dir` under the prefix `path`.
    pub fn new(path: &str, dir: &str) -> (mount: Self)
        ensures
            mount.spec_path() == path@,
            mount.spec_directory() == dir@,
    {
        Static { path: String::from_str(path), directory: String::from_str(dir) }
    }

    /// The prefix.
    pub fn path(&self) -> (prefix: &str)
        ensures
            prefix@ == self.spec_path(),
    {
        self.path.as_str()
    }

    /// The directory.
    pub fn directory(&self) -> (dir: &str)
        ensures
            dir@ == self.spec_directory(),
    {
        self.directory.as_str()
    }

    /// The relative path that `path`, a request path without the prefix,
    /// names below the directory.
    pub fn get_path_buf(&self, path: &str) -> (outcome: Result<PathPlan, BadSegment>)
        ensures
            match planned(path.spec_bytes()) {
                Some(plan) => outcome matches Ok(found) && found@ == plan,
                None => outcome.is_err(),
            },
    {
        plan_path(path.as_bytes())
    }

    /// What the mount makes of the request path `uri_path`: outside the
    /// prefix the request passes; inside, the rest of the path names a file
    /// or is refused.
    pub fn route(&self, uri_path: &str) -> (route: Route)
        ensures
            route == Route::Pass <==> !self.prefix_bytes().is_prefix_of(uri_path.spec_bytes()),
            self.prefix_bytes().is_prefix_of(uri_path.spec_bytes()) ==> match planned(
                uri_path.spec_bytes().subrange(
                    self.prefix_bytes().len() as int,
                    uri_path.spec_bytes().len() as int,
                ),
            ) {
                Some(plan) => route matches Route::File(found) && found@ == plan,
                None => route == Route::Refused,
            },
    {
        let prefix = self.path.as_str().as_bytes();
        let whole = uri_path.as_bytes();
        if prefix.len() > whole.len() {
            return Route::Pass;
        }
        let mut i: usize = 0;
        while i < prefix.len()
            invariant
                i <= prefix@.len() <= whole@.len(),
                prefix@ == self.prefix_bytes(),
                whole@ == uri_path.spec_bytes(),
                forall|k: int| 0 <= k < i ==> prefix@[k] == whole@[k],
            decreases prefix@.len() - i,
        {
            if prefix[i] != whole[i] {
                proof {
                    assert(whole@.subrange(0, prefix@.len() as int)[i as int] == whole@[i as int]);
                }
                return Route::Pass;
            }
            i += 1;
        }
        assert(prefix@ =~= whole@.subrange(0, prefix@.len() as int));
        let rest = slice_subrange(whole, prefix.len(), whole.len());
        match plan_path(rest) {
            Ok(plan) => Route::File(plan),
            Err(_) => Route::Refused,
        }
    }

    /// The status of the response for a path inside the mount, given what
    /// the lookup of the file came to: whether it exists, or why that could
    /// not be told.
    pub fn status<E>(lookup: &Result<bool, E>) -> (code: u16)
        ensures
            code == match *lookup {
                Ok(true) => OK,
                Ok(false) => NOT_FOUND,
                Err(_) => INTERNAL_SERVER_ERROR,
            },
    {
        match lookup {
            Ok(true) => OK,
            Ok(false) => NOT_FOUND,
            Err(_) => INTERNAL_SERVER_ERROR,
        }
    }
}

/// A file read in pieces: how long it is and how much of it has been read.
#[derive(Debug)]
pub struct ChunkedReadFile {
    size: u64,
    offset: u64,
    counter: u64,
}

/// A read came back empty before the end of the file.
#[derive(Debug, PartialEq, Eq)]
pub struct UnexpectedEof;

impl ChunkedReadFile {
    #[verifier::type_invariant]
    spec fn well_formed(&self) -> bool {
        self.offset == self.counter && self.counter <= self.size
    }

    /// The file's length in bytes.
    pub closed spec fn spec_size(&self) -> nat {
        self.size as nat
    }

    /// The number of bytes read so far.
    pub closed spec fn spec_counter(&self) -> nat {
        self.counter as nat
    }

    /// The number of bytes that the next read may take: what is left of the
    /// file, and at most one chunk.
    pub open spec fn spec_max_bytes(&self) -> nat {
        if self.spec_size() - self.spec_counter() < CHUNK_SIZE {
            (self.spec_size() - self.spec_counter()) as nat
        } else {
            CHUNK_SIZE as nat
        }
    }

    /// A file of `size` bytes, none of them read.
    pub fn new(size: u64) -> (file: Self)
        ensures
            file.spec_size() == size,
            file.spec_counter() == 0,
    {
        ChunkedReadFile { size, offset: 0, counter: 0 }
    }

    /// The next read: where in the file it starts and how many bytes it may
    /// take; `None` once the whole file has been read.
    pub fn next_read(&self) -> (read: Option<(u64, u64)>)
        ensures
            self.spec_counter() <= self.spec_size(),
            self.spec_counter() == self.spec_size() ==> read.is_none(),
            self.spec_counter() < self.spec_size() ==> read == Some(
                (self.spec_counter() as u64, self.spec_max_bytes() as u64),
            ),
    {
        proof {
            use_type_invariant(self);
        }
        if self.size == self.counter {
            None
        } else {
            let left: u64 = self.size - self.counter;
            let max_bytes: u64 = if left < CHUNK_SIZE {
                left
            } else {
                CHUNK_SIZE
            };
            Some((self.offset, max_bytes))
        }
    }

    /// Records that the read asked for gave `n` bytes. None at all is an
    /// error, since the file has not ended, and changes nothing.
    pub fn advance(&mut self, n: u64) -> (outcome: Result<(), UnexpectedEof>)
        requires
            n <= old(self).spec_max_bytes(),
        ensures
            final(self).spec_size() == old(self).spec_size(),
            n == 0 ==> outcome.is_err() && final(self).spec_counter() == old(self).spec_counter(),
            n > 0 ==> outcome.is_ok() && final(self).spec_counter() == old(self).spec_counter()
                + n,
    {
        proof {
            use_type_invariant(&*self);
        }
        if n == 0 {
            return Err(UnexpectedEof);
        }
        let read = ChunkedReadFile {
            size: self.size,
            offset: self.offset + n,
            counter: self.counter + n,
        };
        *self = read;
        Ok(())
    }
}

} // verus!
