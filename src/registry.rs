use crate::syscall::{
    has_legacy_variant, index_of, lemma_index_of_inverse, lemma_names_distinct, syscall_at,
    syscall_name,
    takes_guest_offsets, Syscall, PREVIEW1_COUNT, SYSCALL_COUNT,
};
use crate::text::same_text;
use vstd::prelude::*;

verus! {

/// The generations of the system-call interface.
#[derive(Debug, Clone, Copy, PartialEq, Eq, Structural, Hash)]
pub enum WasiVersion {
    /// `wasi_unstable`, the oldest generation.
    Snapshot0,
    /// `wasi_snapshot_preview1`.
    Snapshot1,
    /// Whatever generation is newest; today that is `Snapshot1`.
    Latest,
    /// `wasix_32v1`: the extended interface for 32-bit guests.
    Wasix32v1,
    /// `wasix_64v1`: the extended interface for 64-bit guests.
    Wasix64v1,
}

/// How a guest interprets memory offsets and lengths.
#[derive(Debug, Clone, Copy, PartialEq, Eq, Structural, Hash)]
pub enum MemoryWidth {
    Memory32,
    Memory64,
}

/// Which implementation of a call an entry point runs.
#[derive(Debug, Clone, Copy, PartialEq, Eq, Structural, Hash)]
pub enum Implementation {
    /// The implementation that every generation but the oldest shares.
    Current,
    /// The compatibility implementation that `wasi_unstable` keeps.
    LegacySnapshot0,
}

/// What an entry point is bound to: an implementation, instantiated for one
/// address width, or with `width == None` for a call whose single
/// instantiation serves every width.
#[derive(Debug, Clone, Copy, PartialEq, Eq, Structural, Hash)]
pub struct Binding {
    pub implementation: Implementation,
    pub width: Option<MemoryWidth>,
}

/// One named entry point of a namespace.
#[derive(Debug, Clone, Copy, PartialEq, Eq, Structural, Hash)]
pub struct EntryPoint {
    pub syscall: Syscall,
    pub binding: Binding,
}

/// The generation whose namespace a version selects (`Latest` is an alias).
pub open spec fn canonical(v: WasiVersion) -> WasiVersion {
    match v {
        WasiVersion::Latest => WasiVersion::Snapshot1,
        _ => v,
    }
}

/// The import-namespace string of a version.
pub open spec fn module_name(v: WasiVersion) -> Seq<char> {
    match v {
        WasiVersion::Snapshot0 => "wasi_unstable"@,
        WasiVersion::Snapshot1 | WasiVersion::Latest => "wasi_snapshot_preview1"@,
        WasiVersion::Wasix32v1 => "wasix_32v1"@,
        WasiVersion::Wasix64v1 => "wasix_64v1"@,
    }
}

/// The address width of a version's guests.
pub open spec fn width_of(v: WasiVersion) -> MemoryWidth {
    match v {
        WasiVersion::Wasix64v1 => MemoryWidth::Memory64,
        _ => MemoryWidth::Memory32,
    }
}

/// Whether a version's namespace exposes a call: the WASIX generations expose
/// every call, the older ones only those of `wasi_snapshot_preview1`.
pub open spec fn exposes(v: WasiVersion, s: Syscall) -> bool {
    match v {
        WasiVersion::Wasix32v1 | WasiVersion::Wasix64v1 => true,
        _ => index_of(s) < PREVIEW1_COUNT,
    }
}

/// What a version's namespace binds a call to.
pub open spec fn expected_binding(v: WasiVersion, s: Syscall) -> Binding {
    Binding {
        implementation: if v == WasiVersion::Snapshot0 && has_legacy_variant(s) {
            Implementation::LegacySnapshot0
        } else {
            Implementation::Current
        },
        width: if takes_guest_offsets(s) {
            Some(width_of(v))
        } else {
            None
        },
    }
}

/// The entry points of one generation, at most one per call.
pub struct Namespace {
    entries: Vec<EntryPoint>,
}

impl View for Namespace {
    type V = Seq<EntryPoint>;

    closed spec fn view(&self) -> Seq<EntryPoint> {
        self.entries@
    }
}

/// No call appears twice among the entries.
pub open spec fn distinct_calls(e: Seq<EntryPoint>) -> bool {
    forall|i: int, j: int|
        0 <= i < e.len() && 0 <= j < e.len() && i != j ==> #[trigger] e[i].syscall
            != #[trigger] e[j].syscall
}

/// Some entry is bound to the call.
pub open spec fn has_call(e: Seq<EntryPoint>, s: Syscall) -> bool {
    exists|i: int| 0 <= i < e.len() && #[trigger] e[i].syscall == s
}

/// The entries are exactly those that a version documents: each exposed call
/// once, nothing else, each bound as the version binds it.
pub open spec fn conforms(e: Seq<EntryPoint>, v: WasiVersion) -> bool {
    &&& distinct_calls(e)
    &&& forall|s: Syscall| #[trigger] has_call(e, s) <==> exposes(v, s)
    &&& forall|i: int|
        0 <= i < e.len() ==> #[trigger] e[i].binding == expected_binding(v, e[i].syscall)
}

impl WasiVersion {
    /// The import-namespace string of this version.
    pub fn namespace_name(&self) -> (r: &'static str)
        ensures
            r@ == module_name(*self),
    {
        match self {
            WasiVersion::Snapshot0 => "wasi_unstable",
            WasiVersion::Snapshot1 | WasiVersion::Latest => "wasi_snapshot_preview1",
            WasiVersion::Wasix32v1 => "wasix_32v1",
            WasiVersion::Wasix64v1 => "wasix_64v1",
        }
    }

    /// The generation whose import-namespace string is exactly `name`.
    pub fn from_namespace_name(name: &str) -> (r: Option<WasiVersion>)
        ensures
            r matches Some(w) ==> w == canonical(w) && module_name(w) == name@,
            r is None <==> forall|v: WasiVersion| #[trigger] module_name(v) != name@,
    {
        if same_text("wasi_unstable", name) {
            assert(module_name(WasiVersion::Snapshot0) == name@);
            Some(WasiVersion::Snapshot0)
        } else if same_text("wasi_snapshot_preview1", name) {
            assert(module_name(WasiVersion::Snapshot1) == name@);
            Some(WasiVersion::Snapshot1)
        } else if same_text("wasix_32v1", name) {
            assert(module_name(WasiVersion::Wasix32v1) == name@);
            Some(WasiVersion::Wasix32v1)
        } else if same_text("wasix_64v1", name) {
            assert(module_name(WasiVersion::Wasix64v1) == name@);
            Some(WasiVersion::Wasix64v1)
        } else {
            proof {
                assert forall|v: WasiVersion| #[trigger] module_name(v) != name@ by {
                    match v {
                        WasiVersion::Snapshot0 => {},
                        WasiVersion::Snapshot1 => {},
                        WasiVersion::Latest => {},
                        WasiVersion::Wasix32v1 => {},
                        WasiVersion::Wasix64v1 => {},
                    }
                }
            }
            None
        }
    }
}

/// Generations that select different namespaces have different
/// import-namespace strings.
pub proof fn lemma_module_names_distinct(a: WasiVersion, b: WasiVersion)
    requires
        canonical(a) != canonical(b),
    ensures
        module_name(a) != module_name(b),
{
    reveal_strlit("wasi_unstable");
    reveal_strlit("wasi_snapshot_preview1");
    reveal_strlit("wasix_32v1");
    reveal_strlit("wasix_64v1");
    let n0 = module_name(WasiVersion::Snapshot0);
    let n1 = module_name(WasiVersion::Snapshot1);
    let n2 = module_name(WasiVersion::Wasix32v1);
    let n3 = module_name(WasiVersion::Wasix64v1);
    assert(n0.len() == 13 && n1.len() == 22 && n2.len() == 10 && n3.len() == 10);
    assert(n2[6] != n3[6]);
}

/// What `version` binds `s` to.
pub fn binding_for(version: WasiVersion, s: Syscall) -> (r: Binding)
    ensures
        r == expected_binding(version, s),
{
    let implementation = if version == WasiVersion::Snapshot0 && s.has_legacy_variant() {
        Implementation::LegacySnapshot0
    } else {
        Implementation::Current
    };
    let width = if s.takes_guest_offsets() {
        match version {
            WasiVersion::Wasix64v1 => Some(MemoryWidth::Memory64),
            _ => Some(MemoryWidth::Memory32),
        }
    } else {
        None
    };
    Binding { implementation, width }
}

/// Builds the namespace of one generation: every call it exposes, bound to
/// the implementation and the address width that the generation uses.
pub fn exports_for_version(version: WasiVersion) -> (r: Namespace)
    ensures
        conforms(r@, version),
        r@.len() == match version {
            WasiVersion::Wasix32v1 | WasiVersion::Wasix64v1 => SYSCALL_COUNT,
            _ => PREVIEW1_COUNT,
        },
{
    let count: usize = match version {
        WasiVersion::Wasix32v1 | WasiVersion::Wasix64v1 => SYSCALL_COUNT,
        _ => PREVIEW1_COUNT,
    };
    let mut entries: Vec<EntryPoint> = Vec::new();
    let mut i: usize = 0;
    while i < count
        invariant
            i <= count <= SYSCALL_COUNT,
            count == SYSCALL_COUNT <==> (version == WasiVersion::Wasix32v1 || version
                == WasiVersion::Wasix64v1),
            count == SYSCALL_COUNT || count == PREVIEW1_COUNT,
            entries@.len() == i,
            forall|j: int|
                0 <= j < i ==> #[trigger] entries@[j].syscall == syscall_at(j as usize)
                    && index_of(entries@[j].syscall) == j,
            forall|j: int|
                0 <= j < i ==> #[trigger] entries@[j].binding == expected_binding(
                    version,
                    entries@[j].syscall,
                ),
        decreases count - i,
    {
        let s = Syscall::at(i);
        entries.push(EntryPoint { syscall: s, binding: binding_for(version, s) });
        i = i + 1;
    }
    let ghost e = entries@;
    assert forall|a: int, b: int|
        0 <= a < e.len() && 0 <= b < e.len() && a != b implies #[trigger] e[a].syscall
        != #[trigger] e[b].syscall by {
        assert(index_of(e[a].syscall) == a);
        assert(index_of(e[b].syscall) == b);
    }
    assert forall|s: Syscall| #[trigger] has_call(e, s) <==> exposes(version, s) by {
        lemma_index_of_inverse(s);
        if exposes(version, s) {
            let k = index_of(s) as int;
            assert(e[k].syscall == s);
        }
        if has_call(e, s) {
            let k = choose|k: int| 0 <= k < e.len() && #[trigger] e[k].syscall == s;
            assert(index_of(e[k].syscall) == k);
        }
    }
    Namespace { entries }
}

impl Namespace {
    /// How many entry points the namespace holds.
    pub fn len(&self) -> (r: usize)
        ensures
            r == self@.len(),
    {
        self.entries.len()
    }

    /// The entry point at position `i`.
    pub fn entry(&self, i: usize) -> (r: EntryPoint)
        requires
            i < self@.len(),
        ensures
            r == self@[i as int],
    {
        self.entries[i]
    }

    /// Whether the namespace has an entry point for `s`.
    pub fn contains(&self, s: Syscall) -> (r: bool)
        ensures
            r == has_call(self@, s),
    {
        match self.binding_of(s) {
            Some(_) => true,
            None => false,
        }
    }

    /// What the namespace binds `s` to, if it has an entry point for it.
    pub fn binding_of(&self, s: Syscall) -> (r: Option<Binding>)
        ensures
            r is None <==> !has_call(self@, s),
            r matches Some(b) ==> exists|i: int|
                0 <= i < self@.len() && #[trigger] self@[i].syscall == s && self@[i].binding == b,
    {
        let mut i: usize = 0;
        while i < self.entries.len()
            invariant
                i <= self@.len(),
                self@ == self.entries@,
                forall|j: int| 0 <= j < i ==> #[trigger] self@[j].syscall != s,
            decreases self@.len() - i,
        {
            if self.entries[i].syscall == s {
                return Some(self.entries[i].binding);
            }
            i = i + 1;
        }
        None
    }

    /// The entry-point names, in the order of the entries.
    pub fn names(&self) -> (r: Vec<&'static str>)
        ensures
            r@.len() == self@.len(),
            forall|i: int| 0 <= i < r@.len() ==> #[trigger] r@[i]@ == syscall_name(self@[i].syscall),
    {
        let mut r: Vec<&'static str> = Vec::new();
        let mut i: usize = 0;
        while i < self.entries.len()
            invariant
                i <= self@.len(),
                self@ == self.entries@,
                r@.len() == i,
                forall|j: int| 0 <= j < i ==> #[trigger] r@[j]@ == syscall_name(self@[j].syscall),
            decreases self@.len() - i,
        {
            r.push(self.entries[i].syscall.name());
            i = i + 1;
        }
        r
    }

    /// What the entry point imported under `name` is bound to, if the
    /// namespace has one.
    pub fn lookup(&self, name: &str) -> (r: Option<Binding>)
        ensures
            r is None <==> !exists|i: int|
                0 <= i < self@.len() && #[trigger] syscall_name(self@[i].syscall) == name@,
            r matches Some(b) ==> exists|i: int|
                0 <= i < self@.len() && #[trigger] syscall_name(self@[i].syscall) == name@
                    && self@[i].binding == b,
    {
        match Syscall::from_name(name) {
            None => None,
            Some(s) => {
                let r = self.binding_of(s);
                proof {
                    if r is None {
                        assert forall|i: int| 0 <= i < self@.len() implies #[trigger] syscall_name(
                            self@[i].syscall,
                        ) != name@ by {
                            if syscall_name(self@[i].syscall) == name@ {
                                assert(self@[i].syscall == s);
                                assert(has_call(self@, s));
                            }
                        }
                    } else {
                        let i = choose|i: int|
                            0 <= i < self@.len() && #[trigger] self@[i].syscall == s
                                && self@[i].binding == r->Some_0;
                        assert(syscall_name(self@[i].syscall) == name@);
                    }
                }
                r
            },
        }
    }
}

/// One namespace of an import table, under the generation that names it.
pub struct ImportModule {
    pub version: WasiVersion,
    pub exports: Namespace,
}

/// The namespaces handed to a guest's loader, keyed by their generation.
pub struct ImportTable {
    modules: Vec<ImportModule>,
}

impl View for ImportTable {
    type V = Seq<(WasiVersion, Seq<EntryPoint>)>;

    closed spec fn view(&self) -> Seq<(WasiVersion, Seq<EntryPoint>)> {
        self.modules@.map_values(|m: ImportModule| (m.version, m.exports@))
    }
}

/// Each namespace stands under its own generation, never under the alias
/// `Latest`.
pub open spec fn keys_unique(t: Seq<(WasiVersion, Seq<EntryPoint>)>) -> bool {
    &&& forall|i: int| 0 <= i < t.len() ==> #[trigger] t[i].0 != WasiVersion::Latest
    &&& forall|i: int, j: int|
        0 <= i < t.len() && 0 <= j < t.len() && i != j ==> #[trigger] t[i].0 != #[trigger] t[j].0
}

/// The table has an entry point imported as `name` from the namespace
/// `module`, bound to `b`.
pub open spec fn resolves_to(
    t: Seq<(WasiVersion, Seq<EntryPoint>)>,
    module: Seq<char>,
    name: Seq<char>,
    b: Binding,
) -> bool {
    exists|i: int, j: int|
        0 <= i < t.len() && 0 <= j < t[i].1.len() && #[trigger] module_name(t[i].0) == module
            && #[trigger] syscall_name(t[i].1[j].syscall) == name && t[i].1[j].binding == b
}

impl ImportTable {
    /// The table's invariant.
    pub open spec fn wf(&self) -> bool {
        keys_unique(self@)
    }

    /// Resolves an import of a guest module: the entry point imported as
    /// `name` from the namespace `module`, if the table has it.
    pub fn resolve(&self, module: &str, name: &str) -> (r: Option<Binding>)
        requires
            self.wf(),
        ensures
            r matches Some(b) ==> resolves_to(self@, module@, name@, b),
            r is None <==> forall|b: Binding| !resolves_to(self@, module@, name@, b),
    {
        match WasiVersion::from_namespace_name(module) {
            None => {
                proof {
                    assert forall|b: Binding| !resolves_to(self@, module@, name@, b) by {
                        if resolves_to(self@, module@, name@, b) {
                            let (i, j) = choose|i: int, j: int|
                                0 <= i < self@.len() && 0 <= j < self@[i].1.len()
                                    && #[trigger] module_name(self@[i].0) == module@
                                    && #[trigger] syscall_name(self@[i].1[j].syscall) == name@
                                    && self@[i].1[j].binding == b;
                            assert(module_name(self@[i].0) != module@);
                        }
                    }
                }
                None
            },
            Some(v) => {
                match self.exports(v) {
                    None => {
                        proof {
                            assert forall|b: Binding| !resolves_to(self@, module@, name@, b) by {
                                if resolves_to(self@, module@, name@, b) {
                                    let (i, j) = choose|i: int, j: int|
                                        0 <= i < self@.len() && 0 <= j < self@[i].1.len()
                                            && #[trigger] module_name(self@[i].0) == module@
                                            && #[trigger] syscall_name(self@[i].1[j].syscall)
                                            == name@ && self@[i].1[j].binding == b;
                                    if canonical(self@[i].0) != canonical(v) {
                                        lemma_module_names_distinct(self@[i].0, v);
                                    }
                                    assert(self@[i].0 == canonical(v));
                                }
                            }
                        }
                        None
                    },
                    Some(ns) => {
                        let r = ns.lookup(name);
                        proof {
                            let k = choose|k: int|
                                0 <= k < self@.len() && #[trigger] self@[k].0 == canonical(v)
                                    && self@[k].1 == ns@;
                            assert(module_name(self@[k].0) == module@);
                            if r is None {
                                assert forall|b: Binding| !resolves_to(self@, module@, name@, b) by {
                                    if resolves_to(self@, module@, name@, b) {
                                        let (i, j) = choose|i: int, j: int|
                                            0 <= i < self@.len() && 0 <= j < self@[i].1.len()
                                                && #[trigger] module_name(self@[i].0) == module@
                                                && #[trigger] syscall_name(self@[i].1[j].syscall)
                                                == name@ && self@[i].1[j].binding == b;
                                        if canonical(self@[i].0) != canonical(v) {
                                            lemma_module_names_distinct(self@[i].0, v);
                                        }
                                        assert(i == k);
                                        assert(syscall_name(ns@[j].syscall) == name@);
                                    }
                                }
                            } else {
                                let j = choose|j: int|
                                    0 <= j < ns@.len() && #[trigger] syscall_name(ns@[j].syscall)
                                        == name@ && ns@[j].binding == r->Some_0;
                                assert(syscall_name(self@[k].1[j].syscall) == name@);
                                assert(resolves_to(self@, module@, name@, r->Some_0));
                            }
                        }
                        r
                    },
                }
            },
        }
    }

    /// How many namespaces the table holds.
    pub fn len(&self) -> (r: usize)
        ensures
            r == self@.len(),
    {
        self.modules.len()
    }

    /// The namespace that `version` selects, if the table holds it.
    pub fn exports(&self, version: WasiVersion) -> (r: Option<&Namespace>)
        ensures
            r is None <==> forall|i: int| 0 <= i < self@.len() ==> #[trigger] self@[i].0 != canonical(version),
            r matches Some(ns) ==> exists|i: int|
                0 <= i < self@.len() && #[trigger] self@[i].0 == canonical(version) && self@[i].1 == ns@,
    {
        let key = match version {
            WasiVersion::Latest => WasiVersion::Snapshot1,
            _ => version,
        };
        let mut i: usize = 0;
        while i < self.modules.len()
            invariant
                i <= self@.len(),
                self@.len() == self.modules@.len(),
                key == canonical(version),
                forall|j: int| 0 <= j < i ==> #[trigger] self@[j].0 != key,
            decreases self@.len() - i,
        {
            if self.modules[i].version == key {
                assert(self@[i as int].0 == key);
                return Some(&self.modules[i].exports);
            }
            i = i + 1;
        }
        None
    }

    /// The import-namespace strings, in the order of the namespaces.
    pub fn namespace_names(&self) -> (r: Vec<&'static str>)
        ensures
            r@.len() == self@.len(),
            forall|i: int| 0 <= i < r@.len() ==> #[trigger] r@[i]@ == module_name(self@[i].0),
    {
        let mut r: Vec<&'static str> = Vec::new();
        let mut i: usize = 0;
        while i < self.modules.len()
            invariant
                i <= self@.len(),
                self@.len() == self.modules@.len(),
                r@.len() == i,
                forall|j: int| 0 <= j < i ==> #[trigger] r@[j]@ == module_name(self@[j].0),
            decreases self@.len() - i,
        {
            r.push(self.modules[i].version.namespace_name());
            i = i + 1;
        }
        r
    }
}

/// Builds the import table for a guest of one version: the single namespace
/// that the version selects.
pub fn generate_import_object_from_env(version: WasiVersion) -> (r: ImportTable)
    ensures
        r.wf(),
        r@.len() == 1,
        r@[0].0 == canonical(version),
        conforms(r@[0].1, version),
{
    let key = match version {
        WasiVersion::Latest => WasiVersion::Snapshot1,
        _ => version,
    };
    let mut modules: Vec<ImportModule> = Vec::new();
    modules.push(ImportModule { version: key, exports: exports_for_version(version) });
    let r = ImportTable { modules };
    assert(r@[0].1 == modules@[0].exports@);
    r
}

/// Builds the import table that serves a guest of any version: the
/// namespaces of all four generations, under four different names.
pub fn import_object_for_all_wasi_versions() -> (r: ImportTable)
    ensures
        r.wf(),
        r@.len() == 4,
        r@[0].0 == WasiVersion::Snapshot0 && conforms(r@[0].1, WasiVersion::Snapshot0),
        r@[1].0 == WasiVersion::Snapshot1 && conforms(r@[1].1, WasiVersion::Snapshot1),
        r@[2].0 == WasiVersion::Wasix32v1 && conforms(r@[2].1, WasiVersion::Wasix32v1),
        r@[3].0 == WasiVersion::Wasix64v1 && conforms(r@[3].1, WasiVersion::Wasix64v1),
        forall|i: int, j: int|
            0 <= i < 4 && 0 <= j < 4 && i != j ==> module_name(#[trigger] r@[i].0) != module_name(
                #[trigger] r@[j].0,
            ),
{
    let mut modules: Vec<ImportModule> = Vec::new();
    modules.push(ImportModule { version: WasiVersion::Snapshot0, exports: exports_for_version(WasiVersion::Snapshot0) });
    modules.push(ImportModule { version: WasiVersion::Snapshot1, exports: exports_for_version(WasiVersion::Snapshot1) });
    modules.push(ImportModule { version: WasiVersion::Wasix32v1, exports: exports_for_version(WasiVersion::Wasix32v1) });
    modules.push(ImportModule { version: WasiVersion::Wasix64v1, exports: exports_for_version(WasiVersion::Wasix64v1) });
    let r = ImportTable { modules };
    assert(r@[0].1 == modules@[0].exports@);
    assert(r@[1].1 == modules@[1].exports@);
    assert(r@[2].1 == modules@[2].exports@);
    assert(r@[3].1 == modules@[3].exports@);
    proof {
        assert forall|i: int, j: int|
            0 <= i < 4 && 0 <= j < 4 && i != j implies module_name(#[trigger] r@[i].0) != module_name(
            #[trigger] r@[j].0,
        ) by {
            lemma_module_names_distinct(r@[i].0, r@[j].0);
        }
    }
    r
}

/// `wasi_unstable` and `wasi_snapshot_preview1` expose the same calls, and a
/// call is bound differently in the two exactly when it has a legacy variant:
/// then `wasi_unstable` runs the legacy implementation and
/// `wasi_snapshot_preview1` the current one. Both use 32-bit offsets.
pub proof fn lemma_legacy_divergence(u: Seq<EntryPoint>, p: Seq<EntryPoint>, i: int, j: int)
    requires
        conforms(u, WasiVersion::Snapshot0),
        conforms(p, WasiVersion::Snapshot1),
        0 <= i < u.len(),
        0 <= j < p.len(),
        u[i].syscall == p[j].syscall,
    ensures
        forall|s: Syscall| #[trigger] has_call(u, s) <==> has_call(p, s),
        (u[i].binding != p[j].binding) <==> has_legacy_variant(u[i].syscall),
        has_legacy_variant(u[i].syscall) ==> u[i].binding.implementation
            == Implementation::LegacySnapshot0 && p[j].binding.implementation
            == Implementation::Current,
        u[i].binding.width != Some(MemoryWidth::Memory64),
        p[j].binding.width != Some(MemoryWidth::Memory64),
{
    assert forall|s: Syscall| #[trigger] has_call(u, s) <==> has_call(p, s) by {
        assert(has_call(u, s) <==> exposes(WasiVersion::Snapshot0, s));
        assert(has_call(p, s) <==> exposes(WasiVersion::Snapshot1, s));
    }
}

/// `wasix_32v1` and `wasix_64v1` expose the same calls with the same
/// implementations; a call is bound differently in the two exactly when it
/// takes guest-memory offsets, and then for 32-bit and 64-bit offsets.
pub proof fn lemma_wasix_widths(n32: Seq<EntryPoint>, n64: Seq<EntryPoint>, i: int, j: int)
    requires
        conforms(n32, WasiVersion::Wasix32v1),
        conforms(n64, WasiVersion::Wasix64v1),
        0 <= i < n32.len(),
        0 <= j < n64.len(),
        n32[i].syscall == n64[j].syscall,
    ensures
        forall|s: Syscall| #[trigger] has_call(n32, s) <==> has_call(n64, s),
        n32[i].binding.implementation == n64[j].binding.implementation,
        (n32[i].binding != n64[j].binding) <==> takes_guest_offsets(n32[i].syscall),
        takes_guest_offsets(n32[i].syscall) ==> n32[i].binding.width == Some(MemoryWidth::Memory32)
            && n64[j].binding.width == Some(MemoryWidth::Memory64),
{
    assert forall|s: Syscall| #[trigger] has_call(n32, s) <==> has_call(n64, s) by {
        assert(has_call(n32, s) <==> exposes(WasiVersion::Wasix32v1, s));
        assert(has_call(n64, s) <==> exposes(WasiVersion::Wasix64v1, s));
    }
}

/// Every call of `wasi_snapshot_preview1` is also a call of both WASIX
/// generations, bound there to the same implementation.
pub proof fn lemma_wasix_extends_preview1(p: Seq<EntryPoint>, x: Seq<EntryPoint>, v: WasiVersion, s: Syscall)
    requires
        conforms(p, WasiVersion::Snapshot1),
        conforms(x, v),
        v == WasiVersion::Wasix32v1 || v == WasiVersion::Wasix64v1,
        has_call(p, s),
    ensures
        has_call(x, s),
        forall|i: int, j: int|
            0 <= i < p.len() && 0 <= j < x.len() && #[trigger] p[i].syscall == s && #[trigger] x[j].syscall == s
                ==> p[i].binding.implementation == x[j].binding.implementation,
{
    assert(exposes(v, s));
}

/// The names that the entries are imported under.
pub open spec fn names_in(e: Seq<EntryPoint>) -> Set<Seq<char>> {
    Set::new(|n: Seq<char>| exists|i: int| 0 <= i < e.len() && #[trigger] syscall_name(e[i].syscall) == n)
}

/// The names of the calls that a version exposes.
pub open spec fn documented_names(v: WasiVersion) -> Set<Seq<char>> {
    Set::new(|n: Seq<char>| exists|s: Syscall| exposes(v, s) && #[trigger] syscall_name(s) == n)
}

/// A namespace built for a version holds the name of each call that the
/// version exposes exactly once, and no other name.
pub proof fn lemma_namespace_names(e: Seq<EntryPoint>, v: WasiVersion)
    requires
        conforms(e, v),
    ensures
        forall|i: int, j: int|
            0 <= i < e.len() && 0 <= j < e.len() && i != j ==> syscall_name(#[trigger] e[i].syscall)
                != syscall_name(#[trigger] e[j].syscall),
        names_in(e) == documented_names(v),
{
    assert forall|i: int, j: int|
        0 <= i < e.len() && 0 <= j < e.len() && i != j implies syscall_name(#[trigger] e[i].syscall)
        != syscall_name(#[trigger] e[j].syscall) by {
        lemma_names_distinct(e[i].syscall, e[j].syscall);
    }
    assert forall|n: Seq<char>| #[trigger] names_in(e).contains(n) <==> documented_names(v).contains(n) by {
        if names_in(e).contains(n) {
            let i = choose|i: int| 0 <= i < e.len() && #[trigger] syscall_name(e[i].syscall) == n;
            let s = e[i].syscall;
            assert(has_call(e, s));
            assert(exposes(v, s) && syscall_name(s) == n);
        }
        if documented_names(v).contains(n) {
            let s = choose|s: Syscall| exposes(v, s) && #[trigger] syscall_name(s) == n;
            assert(has_call(e, s));
            let i = choose|i: int| 0 <= i < e.len() && #[trigger] e[i].syscall == s;
            assert(syscall_name(e[i].syscall) == n);
        }
    }
    assert(names_in(e) =~= documented_names(v));
}

} // verus!
