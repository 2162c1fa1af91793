//! The set of storage operations a user may perform, and the small textual
//! language (`none`, `all`, `+flag`, `-flag`) that configures it.
use vstd::prelude::*;

verus! {

/// One storage operation that can be granted or withheld.
#[derive(Clone, Copy, Debug, PartialEq, Eq, Structural)]
pub enum Permission {
    MakeDir,
    RemoveDir,
    Delete,
    Rename,
    Checksum,
    Get,
    Put,
    List,
}

/// The position of a permission's bit in the mask.
pub open spec fn bit_index(p: Permission) -> u32 {
    match p {
        Permission::MakeDir => 0,
        Permission::RemoveDir => 1,
        Permission::Delete => 2,
        Permission::Rename => 3,
        Permission::Checksum => 4,
        Permission::Get => 5,
        Permission::Put => 6,
        Permission::List => 7,
    }
}

pub open spec fn bit_of(p: Permission) -> u32 {
    1u32 << bit_index(p)
}

proof fn lemma_bit_index_injective(p: Permission, q: Permission)
    ensures
        (bit_index(p) == bit_index(q)) == (p == q),
{
}

proof fn lemma_or_bit(b: u32, i: u32, j: u32)
    requires
        i < 8,
        j < 8,
    ensures
        ((b | (1u32 << i)) & (1u32 << j) != 0) == ((b & (1u32 << j)) != 0 || i == j),
{
    assert(((b | (1u32 << i)) & (1u32 << j) != 0) == ((b & (1u32 << j)) != 0 || i == j))
        by (bit_vector)
        requires
            i < 8,
            j < 8,
    ;
}

proof fn lemma_clear_bit(b: u32, i: u32, j: u32)
    requires
        i < 8,
        j < 8,
    ensures
        ((b & !(1u32 << i)) & (1u32 << j) != 0) == ((b & (1u32 << j)) != 0 && i != j),
{
    assert(((b & !(1u32 << i)) & (1u32 << j) != 0) == ((b & (1u32 << j)) != 0 && i != j))
        by (bit_vector)
        requires
            i < 8,
            j < 8,
    ;
}

proof fn lemma_full_and_empty(j: u32)
    requires
        j < 8,
    ensures
        (255u32 & (1u32 << j)) != 0,
        (0u32 & (1u32 << j)) == 0,
{
    assert((255u32 & (1u32 << j)) != 0 && (0u32 & (1u32 << j)) == 0) by (bit_vector)
        requires
            j < 8,
    ;
}

/// A set of permissions, kept as a bit mask with one bit per [`Permission`].
#[derive(Clone, Copy, Debug, PartialEq, Eq, Structural)]
pub struct VfsOperations {
    bits: u32,
}

/// Every permission.
pub open spec fn all_permissions() -> Set<Permission> {
    Set::new(|p: Permission| true)
}

impl View for VfsOperations {
    type V = Set<Permission>;

    closed spec fn view(&self) -> Set<Permission> {
        Set::new(|p: Permission| (self.bits & bit_of(p)) != 0)
    }
}

impl VfsOperations {
    /// The set that grants nothing.
    pub fn empty() -> (r: VfsOperations)
        ensures
            r@ == Set::<Permission>::empty(),
    {
        let r = VfsOperations { bits: 0 };
        assert forall|p: Permission| !r@.contains(p) by {
            lemma_full_and_empty(bit_index(p));
        }
        assert(r@ =~= Set::<Permission>::empty());
        r
    }

    /// The set that grants every operation.
    pub fn all() -> (r: VfsOperations)
        ensures
            r@ == all_permissions(),
    {
        let r = VfsOperations { bits: 255 };
        assert forall|p: Permission| r@.contains(p) by {
            lemma_full_and_empty(bit_index(p));
        }
        assert(r@ =~= all_permissions());
        r
    }

    fn bit(p: Permission) -> (r: u32)
        ensures
            r == bit_of(p),
            bit_index(p) < 8,
    {
        match p {
            Permission::MakeDir => 1u32 << 0u32,
            Permission::RemoveDir => 1u32 << 1u32,
            Permission::Delete => 1u32 << 2u32,
            Permission::Rename => 1u32 << 3u32,
            Permission::Checksum => 1u32 << 4u32,
            Permission::Get => 1u32 << 5u32,
            Permission::Put => 1u32 << 6u32,
            Permission::List => 1u32 << 7u32,
        }
    }

    /// Whether the set grants `p`.
    pub fn contains(&self, p: Permission) -> (r: bool)
        ensures
            r == self@.contains(p),
    {
        (self.bits & Self::bit(p)) != 0
    }

    /// This set with `p` added.
    pub fn with(self, p: Permission) -> (r: VfsOperations)
        ensures
            r@ == self@.insert(p),
    {
        let b = Self::bit(p);
        let r = VfsOperations { bits: self.bits | b };
        assert forall|q: Permission| r@.contains(q) == self@.insert(p).contains(q) by {
            lemma_or_bit(self.bits, bit_index(p), bit_index(q));
            lemma_bit_index_injective(p, q);
        }
        assert(r@ =~= self@.insert(p));
        r
    }

    /// This set with `p` taken out.
    pub fn without(self, p: Permission) -> (r: VfsOperations)
        ensures
            r@ == self@.remove(p),
    {
        let b = Self::bit(p);
        let r = VfsOperations { bits: self.bits & !b };
        assert forall|q: Permission| r@.contains(q) == self@.remove(p).contains(q) by {
            lemma_clear_bit(self.bits, bit_index(p), bit_index(q));
            lemma_bit_index_injective(p, q);
        }
        assert(r@ =~= self@.remove(p));
        r
    }
}


/// The permission named by a configuration word (`mkdir`, `rmdir`, `del`,
/// `ren`, `md5`, `get`, `put`, `list`).
pub open spec fn named_permission(name: Seq<char>) -> Option<Permission> {
    if name == "mkdir"@ {
        Some(Permission::MakeDir)
    } else if name == "rmdir"@ {
        Some(Permission::RemoveDir)
    } else if name == "del"@ {
        Some(Permission::Delete)
    } else if name == "ren"@ {
        Some(Permission::Rename)
    } else if name == "md5"@ {
        Some(Permission::Checksum)
    } else if name == "get"@ {
        Some(Permission::Get)
    } else if name == "put"@ {
        Some(Permission::Put)
    } else if name == "list"@ {
        Some(Permission::List)
    } else {
        None
    }
}

/// What one configuration token does to a permission set: `none` and `all`
/// reset it, `+name` adds and `-name` removes one permission, and any other
/// token leaves it as it is.
pub open spec fn token_effect(ops: Set<Permission>, token: Seq<char>) -> Set<Permission> {
    if token == "none"@ {
        Set::empty()
    } else if token == "all"@ {
        all_permissions()
    } else if token.len() > 0 && token[0] == '+' && named_permission(token.drop_first()).is_some() {
        ops.insert(named_permission(token.drop_first()).unwrap())
    } else if token.len() > 0 && token[0] == '-' && named_permission(token.drop_first()).is_some() {
        ops.remove(named_permission(token.drop_first()).unwrap())
    } else {
        ops
    }
}

/// The permission set that a list of tokens describes, read left to right
/// starting from the set that grants everything.
pub open spec fn tokens_effect(tokens: Seq<Seq<char>>) -> Set<Permission>
    decreases tokens.len(),
{
    if tokens.len() == 0 {
        all_permissions()
    } else {
        token_effect(tokens_effect(tokens.drop_last()), tokens.last())
    }
}

/// Whether two strings hold the same characters.
pub fn same_text(a: &str, b: &str) -> (r: bool)
    ensures
        r == (a@ == b@),
{
    let n = a.unicode_len();
    if n != b.unicode_len() {
        return false;
    }
    let mut i: usize = 0;
    while i < n
        invariant
            n == a@.len(),
            n == b@.len(),
            i <= n,
            a@.take(i as int) == b@.take(i as int),
        decreases n - i,
    {
        if a.get_char(i) != b.get_char(i) {
            return false;
        }
        assert(a@.take(i + 1) == a@.take(i as int).push(a@[i as int]));
        assert(b@.take(i + 1) == b@.take(i as int).push(b@[i as int]));
        i = i + 1;
    }
    assert(a@ == a@.take(n as int));
    assert(b@ == b@.take(n as int));
    true
}

fn permission_named(name: &str) -> (r: Option<Permission>)
    ensures
        r == named_permission(name@),
{
    if same_text(name, "mkdir") {
        Some(Permission::MakeDir)
    } else if same_text(name, "rmdir") {
        Some(Permission::RemoveDir)
    } else if same_text(name, "del") {
        Some(Permission::Delete)
    } else if same_text(name, "ren") {
        Some(Permission::Rename)
    } else if same_text(name, "md5") {
        Some(Permission::Checksum)
    } else if same_text(name, "get") {
        Some(Permission::Get)
    } else if same_text(name, "put") {
        Some(Permission::Put)
    } else if same_text(name, "list") {
        Some(Permission::List)
    } else {
        None
    }
}

impl VfsOperations {
    /// Applies one configuration token to this set.
    pub fn apply_token(self, token: &str) -> (r: VfsOperations)
        ensures
            r@ == token_effect(self@, token@),
    {
        if same_text(token, "none") {
            return VfsOperations::empty();
        }
        if same_text(token, "all") {
            return VfsOperations::all();
        }
        let n = token.unicode_len();
        if n == 0 {
            return self;
        }
        let sign = token.get_char(0);
        let rest = token.substring_char(1, n);
        assert(rest@ == token@.drop_first());
        match permission_named(rest) {
            Some(p) => {
                if sign == '+' {
                    self.with(p)
                } else if sign == '-' {
                    self.without(p)
                } else {
                    self
                }
            },
            None => self,
        }
    }

    /// The set that a list of tokens describes, starting from every
    /// permission and applying the tokens in order.
    pub fn from_tokens(tokens: &Vec<String>) -> (r: VfsOperations)
        ensures
            r@ == tokens_effect(tokens@.map_values(|t: String| t@)),
    {
        let ghost words = tokens@.map_values(|t: String| t@);
        let mut ops = VfsOperations::all();
        let mut i: usize = 0;
        while i < tokens.len()
            invariant
                i <= tokens.len(),
                words == tokens@.map_values(|t: String| t@),
                ops@ == tokens_effect(words.take(i as int)),
            decreases tokens.len() - i,
        {
            assert(words.take(i as int) == words.take(i + 1).drop_last());
            ops = ops.apply_token(tokens[i].as_str());
            i = i + 1;
        }
        assert(words.take(i as int) == words);
        ops
    }
}

} // verus!
