use vstd::prelude::*;

verus! {

/// A filesystem path, held as the raw bytes of its components, in order.
///
/// The root directory is the component `/`, the current directory `.` and the
/// parent directory `..`; every other component is a plain name, which holds no `/`.
/// `a/./b/../c` is thus held as `[a, b, .., c]` (the way paths split into components
/// drops inner `.`), and `/srv/www` as `[/, srv, www]`.
#[derive(Debug)]
pub struct FsPath {
    pub components: Vec<Vec<u8>>,
}

impl View for FsPath {
    type V = Seq<Seq<u8>>;

    open spec fn view(&self) -> Seq<Seq<u8>> {
        self.components@.map_values(|c: Vec<u8>| c@)
    }
}

/// The component that stands for the root directory: `/`.
pub open spec fn root_component() -> Seq<u8> {
    seq![47u8]
}

/// `base` is a leading part of `path`, compared component by component.
pub open spec fn is_component_prefix(base: Seq<Seq<u8>>, path: Seq<Seq<u8>>) -> bool {
    base.len() <= path.len() && path.take(base.len() as int) == base
}

/// The components of `path` from the first one that is not the root on.
pub open spec fn without_leading_roots(path: Seq<Seq<u8>>) -> Seq<Seq<u8>>
    decreases path.len(),
{
    if path.len() > 0 && path[0] == root_component() {
        without_leading_roots(path.drop_first())
    } else {
        path
    }
}

/// `request` appended below `base`, with the leading root components of
/// `request` skipped, so that an absolute request stays under `base`.
pub open spec fn joined_below(base: Seq<Seq<u8>>, request: Seq<Seq<u8>>) -> Seq<Seq<u8>> {
    base + without_leading_roots(request)
}

/// Whether two byte strings are equal.
pub fn bytes_equal(a: &[u8], b: &[u8]) -> (eq: bool)
    ensures
        eq == (a@ == b@),
{
    if a.len() != b.len() {
        return false;
    }
    let mut i: usize = 0;
    while i < a.len()
        invariant
            a@.len() == b@.len(),
            0 <= i <= a@.len(),
            forall|j: int| 0 <= j < i ==> a@[j] == b@[j],
        decreases a@.len() - i,
    {
        if a[i] != b[i] {
            return false;
        }
        i = i + 1;
    }
    assert(a@ =~= b@);
    true
}

/// A copy of the given bytes.
pub fn copy_bytes(a: &[u8]) -> (out: Vec<u8>)
    ensures
        out@ == a@,
{
    let mut out: Vec<u8> = Vec::new();
    let mut i: usize = 0;
    while i < a.len()
        invariant
            0 <= i <= a@.len(),
            out@ == a@.take(i as int),
        decreases a@.len() - i,
    {
        out.push(a[i]);
        i = i + 1;
        assert(out@ =~= a@.take(i as int));
    }
    assert(a@.take(a@.len() as int) =~= a@);
    out
}

impl FsPath {
    /// A path with the given components.
    pub fn new(components: Vec<Vec<u8>>) -> (p: FsPath)
        ensures
            p.components@ == components@,
    {
        FsPath { components }
    }

    /// A copy of this path.
    pub fn duplicate(&self) -> (p: FsPath)
        ensures
            p@ == self@,
    {
        let mut out: Vec<Vec<u8>> = Vec::new();
        let mut i: usize = 0;
        while i < self.components.len()
            invariant
                0 <= i <= self.components@.len(),
                out@.len() == i,
                forall|j: int| 0 <= j < i ==> #[trigger] out@[j]@ == self.components@[j]@,
            decreases self.components@.len() - i,
        {
            out.push(copy_bytes(self.components[i].as_slice()));
            i = i + 1;
        }
        let p = FsPath { components: out };
        assert(p@ =~= self@);
        p
    }

    /// Whether `base` is a leading part of this path, component by component, as
    /// `Path::starts_with` decides it.
    pub fn starts_with(&self, base: &FsPath) -> (b: bool)
        ensures
            b == is_component_prefix(base@, self@),
    {
        if base.components.len() > self.components.len() {
            return false;
        }
        let mut i: usize = 0;
        while i < base.components.len()
            invariant
                base@.len() <= self@.len(),
                0 <= i <= base@.len(),
                forall|j: int| 0 <= j < i ==> self@[j] == base@[j],
            decreases base@.len() - i,
        {
            if !bytes_equal(self.components[i].as_slice(), base.components[i].as_slice()) {
                assert(self@.take(base@.len() as int)[i as int] != base@[i as int]);
                return false;
            }
            i = i + 1;
        }
        assert(self@.take(base@.len() as int) =~= base@);
        true
    }

    /// This path with `name` appended as one more component.
    pub fn pushed(&self, name: &[u8]) -> (p: FsPath)
        ensures
            p@ == self@.push(name@),
    {
        let mut p = self.duplicate();
        let ghost before = p@;
        p.components.push(copy_bytes(name));
        assert(p@ =~= before.push(name@));
        assert(p@ =~= self@.push(name@));
        p
    }

    /// `request` joined below this path: its components are appended one by one,
    /// the leading root components skipped.
    pub fn joined_below(&self, request: &FsPath) -> (p: FsPath)
        ensures
            p@ == joined_below(self@, request@),
    {
        let root: [u8; 1] = [47u8];
        let mut start: usize = 0;
        assert(request@.skip(0) =~= request@);
        assert(root@ =~= root_component());
        while start < request.components.len() && bytes_equal(
            request.components[start].as_slice(),
            root.as_slice(),
        )
            invariant
                0 <= start <= request@.len(),
                root@ == root_component(),
                without_leading_roots(request@) == without_leading_roots(
                    request@.skip(start as int),
                ),
            decreases request@.len() - start,
        {
            assert(request@.skip(start as int).drop_first() =~= request@.skip(start + 1));
            start = start + 1;
        }
        assert(without_leading_roots(request@.skip(start as int)) == request@.skip(start as int));
        let mut p = self.duplicate();
        let mut i: usize = start;
        while i < request.components.len()
            invariant
                start <= i <= request@.len(),
                p@ == self@ + request@.subrange(start as int, i as int),
            decreases request@.len() - i,
        {
            let ghost before = p@;
            p.components.push(copy_bytes(request.components[i].as_slice()));
            assert(p@ =~= before.push(request@[i as int]));
            i = i + 1;
            assert(p@ =~= self@ + request@.subrange(start as int, i as int));
        }
        assert(request@.subrange(start as int, request@.len() as int) =~= request@.skip(
            start as int,
        ));
        p
    }
}

} // verus!
