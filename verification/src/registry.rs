use vstd::prelude::*;

verus! {

/// The kinds of resource that the registry keeps, one store for each.
#[derive(Clone, Copy, Debug, PartialEq, Eq, Structural)]
pub enum Category {
    Buffer,
    Shader,
    Texture,
    TextureView,
    Sampler,
    BindGroupLayout,
    BindGroup,
    RenderPipeline,
}

impl Category {
    /// The name of the store that holds resources of this kind.
    pub open spec fn store_name(self) -> Seq<char> {
        match self {
            Category::Buffer => "buffers"@,
            Category::Shader => "shaders"@,
            Category::Texture => "textures"@,
            Category::TextureView => "texture_views"@,
            Category::Sampler => "samplers"@,
            Category::BindGroupLayout => "bind_group_layouts"@,
            Category::BindGroup => "bind_groups"@,
            Category::RenderPipeline => "render_pipelines"@,
        }
    }

    /// The name of the store that holds resources of this kind.
    pub fn name(&self) -> (r: &'static str)
        ensures
            r@ == self.store_name(),
    {
        match self {
            Category::Buffer => "buffers",
            Category::Shader => "shaders",
            Category::Texture => "textures",
            Category::TextureView => "texture_views",
            Category::Sampler => "samplers",
            Category::BindGroupLayout => "bind_group_layouts",
            Category::BindGroup => "bind_groups",
            Category::RenderPipeline => "render_pipelines",
        }
    }
}

/// A lookup that found nothing: which label was asked for, and in which store.
#[derive(Debug)]
pub struct LookupError {
    pub label: String,
    pub category: Category,
}

/// The text that reports a missing resource: it names the label and the store.
pub open spec fn lookup_message(label: Seq<char>, category: Category) -> Seq<char> {
    "Failed to get "@ + label + " from ctx."@ + category.store_name() + "!"@
}

impl LookupError {
    pub fn new(label: &str, category: Category) -> (r: Self)
        ensures
            r.label@ == label@,
            r.category == category,
    {
        LookupError { label: String::from_str(label), category }
    }

    /// The diagnostic for this miss.
    pub fn message(&self) -> (r: String)
        ensures
            r@ == lookup_message(self.label@, self.category),
    {
        let mut text = String::from_str("Failed to get ");
        text.append(self.label.as_str());
        text.append(" from ctx.");
        text.append(self.category.name());
        text.append("!");
        text
    }
}

/// One resource with the label it was created under.
pub struct Entry<T> {
    pub label: String,
    pub value: T,
}

/// Whether some entry of `s` carries `label`.
pub open spec fn has_label<T>(s: Seq<(Seq<char>, T)>, label: Seq<char>) -> bool {
    exists|i: int| 0 <= i < s.len() && (#[trigger] s[i]).0 == label
}

/// Whether no label occurs twice in `s`.
pub open spec fn labels_unique<T>(s: Seq<(Seq<char>, T)>) -> bool {
    forall|i: int, j: int|
        0 <= i < s.len() && 0 <= j < s.len() && (#[trigger] s[i]).0 == (#[trigger] s[j]).0 ==> i
            == j
}

/// The place of the entry that carries `label`; meaningful where there is one.
pub open spec fn index_of<T>(s: Seq<(Seq<char>, T)>, label: Seq<char>) -> int {
    choose|i: int| 0 <= i < s.len() && (#[trigger] s[i]).0 == label
}

/// Whether `after` is `before` with one more entry, under `label`.
pub open spec fn grown_by<T>(
    after: Seq<(Seq<char>, T)>,
    before: Seq<(Seq<char>, T)>,
    label: Seq<char>,
) -> bool {
    &&& after.len() == before.len() + 1
    &&& after.drop_last() == before
    &&& after.last().0 == label
}

/// Whether `after` begins with the entries of `before`, in their places.
pub open spec fn extends<T>(after: Seq<(Seq<char>, T)>, before: Seq<(Seq<char>, T)>) -> bool {
    &&& before.len() <= after.len()
    &&& forall|i: int| 0 <= i < before.len() ==> (#[trigger] after[i]) == before[i]
}

/// A store that has grown by one entry begins with what it held: every
/// handle that was given out still names the resource that it named, under
/// the label that it had.
pub proof fn lemma_grown_extends<T>(
    before: Seq<(Seq<char>, T)>,
    after: Seq<(Seq<char>, T)>,
    label: Seq<char>,
)
    requires
        grown_by(after, before, label),
    ensures
        extends(after, before),
{
    assert forall|i: int| 0 <= i < before.len() implies (#[trigger] after[i]) == before[i] by {
        assert(after.drop_last()[i] == after[i]);
    }
}

/// Creating and then looking up gives back what was created: once a
/// resource has been added under a label that was free, that label is held,
/// a lookup of it gives the resource that was added, and the lookup of any
/// other label gives what it gave before.
pub proof fn lemma_round_trip<T>(
    before: Seq<(Seq<char>, T)>,
    after: Seq<(Seq<char>, T)>,
    label: Seq<char>,
)
    requires
        labels_unique(before),
        !has_label(before, label),
        grown_by(after, before, label),
    ensures
        labels_unique(after),
        has_label(after, label),
        index_of(after, label) == before.len(),
        after[index_of(after, label)] == after.last(),
        forall|other: Seq<char>|
            other != label ==> (#[trigger] has_label(after, other)) == has_label(before, other),
        forall|other: Seq<char>|
            other != label && has_label(before, other) ==> after[#[trigger] index_of(after, other)]
                == before[index_of(before, other)],
{
    let n = before.len() as int;
    assert forall|i: int| 0 <= i < n implies #[trigger] after[i] == before[i] by {
        assert(after.drop_last()[i] == after[i]);
    }
    assert(after[n].0 == label);
    assert forall|i: int, j: int|
        0 <= i < after.len() && 0 <= j < after.len() && (#[trigger] after[i]).0 == (
        #[trigger] after[j]).0 implies i == j by {
        if i < n && j < n {
            assert(before[i].0 == before[j].0);
        } else if i < n {
            assert(before[i].0 == label);
        } else if j < n {
            assert(before[j].0 == label);
        }
    }
    assert(has_label(after, label));
    let found = index_of(after, label);
    assert(after[found].0 == after[n].0);
    assert forall|other: Seq<char>| other != label implies (#[trigger] has_label(after, other))
        == has_label(before, other) by {
        if has_label(after, other) {
            let i = index_of(after, other);
            assert(i < n);
            assert(before[i].0 == other);
        }
        if has_label(before, other) {
            let i = index_of(before, other);
            assert(after[i].0 == other);
        }
    }
    assert forall|other: Seq<char>| other != label && has_label(before, other) implies after[
    #[trigger] index_of(after, other)] == before[index_of(before, other)] by {
        let i = index_of(before, other);
        assert(after[i].0 == other);
        let k = index_of(after, other);
        assert(after[k].0 == other);
        assert(k == i);
    }
}

/// The entries of a store as pairs of label and resource.
pub open spec fn pairs<T>(entries: Seq<Entry<T>>) -> Seq<(Seq<char>, T)> {
    Seq::new(entries.len(), |i: int| (entries[i].label@, entries[i].value))
}

/// A store of resources of one kind, each under a label of its own, in the
/// order of their creation. The place of an entry is its handle: it never
/// changes, since entries are neither removed nor moved, and from outside
/// this crate no entry can be put in the place of another.
pub struct ResourceMap<T> {
    entries: Vec<Entry<T>>,
}

impl<T> ResourceMap<T> {
    /// The entries as pairs of label and resource, oldest first.
    pub closed spec fn view(&self) -> Seq<(Seq<char>, T)> {
        pairs(self.entries@)
    }

    #[verifier::type_invariant]
    closed spec fn unique(&self) -> bool {
        labels_unique(self@)
    }

    pub fn new() -> (r: Self)
        ensures
            r@ == Seq::<(Seq<char>, T)>::empty(),
    {
        let r = ResourceMap { entries: Vec::new() };
        assert(r@ =~= Seq::<(Seq<char>, T)>::empty());
        r
    }

    /// The number of resources held; no label is held twice.
    pub fn len(&self) -> (r: usize)
        ensures
            r == self@.len(),
            labels_unique(self@),
    {
        proof {
            use_type_invariant(self);
        }
        self.entries.len()
    }

    /// The handle of the resource under `label`.
    pub fn find(&self, label: &str) -> (r: Option<usize>)
        ensures
            r is Some <==> has_label(self@, label@),
            r matches Some(i) ==> i < self@.len() && self@[i as int].0 == label@ && i == index_of(
                self@,
                label@,
            ),
    {
        let wanted = String::from_str(label);
        let mut i: usize = 0;
        while i < self.entries.len()
            invariant
                i <= self.entries.len(),
                wanted@ == label@,
                forall|j: int| 0 <= j < i ==> (#[trigger] self@[j]).0 != label@,
            decreases self.entries.len() - i,
        {
            if self.entries[i].label == wanted {
                proof {
                    use_type_invariant(self);
                    assert(self@[i as int].0 == label@);
                }
                return Some(i);
            }
            i += 1;
        }
        None
    }

    /// Whether `label` is held; no label is held twice.
    pub fn contains(&self, label: &str) -> (r: bool)
        ensures
            r == has_label(self@, label@),
            labels_unique(self@),
    {
        proof {
            use_type_invariant(self);
        }
        self.find(label).is_some()
    }

    /// The resource under `label`.
    pub fn get(&self, label: &str) -> (r: Option<&T>)
        ensures
            r is Some <==> has_label(self@, label@),
            r matches Some(v) ==> *v == self@[index_of(self@, label@)].1,
    {
        match self.find(label) {
            Some(i) => Some(&self.entries[i].value),
            None => None,
        }
    }

    /// The resource behind a handle; no label is held twice.
    pub fn get_at(&self, id: usize) -> (r: Option<&T>)
        ensures
            r is Some <==> id < self@.len(),
            r matches Some(v) ==> *v == self@[id as int].1,
            labels_unique(self@),
    {
        proof {
            use_type_invariant(self);
        }
        if id < self.entries.len() {
            Some(&self.entries[id].value)
        } else {
            None
        }
    }

    /// The label behind a handle.
    pub fn label_at(&self, id: usize) -> (r: Option<&str>)
        ensures
            r is Some <==> id < self@.len(),
            r matches Some(l) ==> l@ == self@[id as int].0,
    {
        if id < self.entries.len() {
            Some(self.entries[id].label.as_str())
        } else {
            None
        }
    }

    /// Adds `value` under `label` and returns its handle. A label that is
    /// already held is refused, and the store stays as it was.
    pub fn insert(&mut self, label: &str, value: T) -> (r: Option<usize>)
        ensures
            r is Some <==> !has_label(old(self)@, label@),
            r matches Some(id) ==> id == old(self)@.len() && final(self)@ == old(self)@.push(
                (label@, value),
            ),
            r is None ==> final(self)@ == old(self)@,
            labels_unique(final(self)@),
    {
        proof {
            use_type_invariant(&*self);
        }
        if self.contains(label) {
            return None;
        }
        let id = self.entries.len();
        let ghost before = self@;
        let mut taken = ResourceMap::new();
        std::mem::swap(self, &mut taken);
        let mut entries = taken.entries;
        entries.push(Entry { label: String::from_str(label), value });
        proof {
            assert(pairs(entries@) =~= before.push((label@, value)));
        }
        *self = ResourceMap { entries };
        Some(id)
    }

    /// Puts `value` in the place of the resource behind `id`, under the same
    /// label. Returns whether there was such a resource.
    pub(crate) fn replace(&mut self, id: usize, value: T) -> (r: bool)
        ensures
            r == (id < old(self)@.len()),
            r ==> final(self)@ == old(self)@.update(id as int, (old(self)@[id as int].0, value)),
            !r ==> final(self)@ == old(self)@,
            labels_unique(final(self)@),
    {
        proof {
            use_type_invariant(&*self);
        }
        if id >= self.entries.len() {
            return false;
        }
        let ghost before = self@;
        let label = self.entries[id].label.clone();
        let mut taken = ResourceMap::new();
        std::mem::swap(self, &mut taken);
        let mut entries = taken.entries;
        entries.set(id, Entry { label, value });
        proof {
            assert(pairs(entries@) =~= before.update(id as int, (before[id as int].0, value)));
        }
        *self = ResourceMap { entries };
        true
    }
}

} // verus!
