use vstd::prelude::*;
use vstd::string::StringExecFns;
use crate::draft::ConfigValue;

verus! {

/// The kind of a profile item.
#[derive(Clone, Copy, PartialEq, Eq, Structural, Debug)]
pub enum ItemType {
    Local,
    Remote,
    Merge,
    Script,
}

/// One entry of the profile list.
pub struct PrfItem {
    pub uid: String,
    pub itype: ItemType,
    pub name: String,
    pub file: String,
}

/// The identifier under which a synthetic item of `kind` is kept.
pub open spec fn synthetic_uid(kind: ItemType) -> Seq<char> {
    match kind {
        ItemType::Merge => "Merge"@,
        _ => "Script"@,
    }
}

/// `p` is the synthetic item of `kind` that startup adds to the list.
pub open spec fn is_synthetic_item(p: PrfItem, kind: ItemType) -> bool {
    &&& p.itype == kind
    &&& p.uid@ == synthetic_uid(kind)
    &&& p.name@ == synthetic_uid(kind)
    &&& p.file@ == synthetic_uid(kind) + ".yaml"@
}

/// Some item of `items` has the identifier `uid`.
pub open spec fn has_uid(items: Seq<PrfItem>, uid: Seq<char>) -> bool {
    exists|i: int| 0 <= i < items.len() && (#[trigger] items[i]).uid@ == uid
}

/// How many items of `items` have the identifier `uid`.
pub open spec fn count_uid(items: Seq<PrfItem>, uid: Seq<char>) -> nat
    decreases items.len(),
{
    if items.len() == 0 {
        0
    } else {
        count_uid(items.drop_last(), uid) + if items.last().uid@ == uid {
            1nat
        } else {
            0nat
        }
    }
}

/// `out` is `items` with the synthetic "Merge" item appended if none was
/// there, and then the synthetic "Script" item appended if none was there.
pub open spec fn ensured_items(items: Seq<PrfItem>, out: Seq<PrfItem>) -> bool {
    let add_merge = !has_uid(items, synthetic_uid(ItemType::Merge));
    let add_script = !has_uid(items, synthetic_uid(ItemType::Script));
    let mid = items.len() + if add_merge { 1int } else { 0int };
    &&& out.len() == mid + if add_script { 1int } else { 0int }
    &&& out.subrange(0, items.len() as int) == items
    &&& add_merge ==> is_synthetic_item(out[items.len() as int], ItemType::Merge)
    &&& add_script ==> is_synthetic_item(out[mid], ItemType::Script)
}

impl PrfItem {
    /// An exact copy of the item.
    pub fn duplicate(&self) -> (r: PrfItem)
        ensures
            r == *self,
    {
        PrfItem {
            uid: self.uid.clone(),
            itype: self.itype,
            name: self.name.clone(),
            file: self.file.clone(),
        }
    }

    /// The synthetic "Merge" item.
    pub fn from_merge() -> (r: PrfItem)
        ensures
            is_synthetic_item(r, ItemType::Merge),
    {
        proof {
            reveal_strlit("Merge");
            reveal_strlit(".yaml");
            reveal_strlit("Merge.yaml");
            assert("Merge"@ + ".yaml"@ =~= "Merge.yaml"@);
        }
        PrfItem {
            uid: String::from_str("Merge"),
            itype: ItemType::Merge,
            name: String::from_str("Merge"),
            file: String::from_str("Merge.yaml"),
        }
    }

    /// The synthetic "Script" item.
    pub fn from_script() -> (r: PrfItem)
        ensures
            is_synthetic_item(r, ItemType::Script),
    {
        proof {
            reveal_strlit("Script");
            reveal_strlit(".yaml");
            reveal_strlit("Script.yaml");
            assert("Script"@ + ".yaml"@ =~= "Script.yaml"@);
        }
        PrfItem {
            uid: String::from_str("Script"),
            itype: ItemType::Script,
            name: String::from_str("Script"),
            file: String::from_str("Script.yaml"),
        }
    }
}

/// The ordered list of profile items.
pub struct IProfiles {
    pub items: Vec<PrfItem>,
}

impl View for IProfiles {
    type V = Seq<PrfItem>;

    open spec fn view(&self) -> Seq<PrfItem> {
        self.items@
    }
}

impl IProfiles {
    /// An empty profile list.
    pub fn new() -> (r: IProfiles)
        ensures
            r@ == Seq::<PrfItem>::empty(),
    {
        IProfiles { items: Vec::new() }
    }

    /// The position of the first item with identifier `uid`, if any.
    pub fn get_item(&self, uid: &String) -> (r: Option<usize>)
        ensures
            r.is_none() <==> !has_uid(self@, uid@),
            r.is_some() ==> r.unwrap() < self@.len() && self@[r.unwrap() as int].uid@ == uid@,
    {
        let mut i: usize = 0;
        while i < self.items.len()
            invariant
                i <= self.items.len(),
                forall|j: int| 0 <= j < i ==> (#[trigger] self@[j]).uid@ != uid@,
            decreases self.items.len() - i,
        {
            if self.items[i].uid == *uid {
                return Some(i);
            }
            i = i + 1;
        }
        None
    }

    /// Adds `item` at the end of the list.
    pub fn append_item(&mut self, item: PrfItem)
        ensures
            final(self)@ == old(self)@.push(item),
    {
        self.items.push(item);
    }

    /// Adds the synthetic "Merge" and "Script" items that are missing.
    pub fn ensure_synthetic(&mut self)
        ensures
            ensured_items(old(self)@, final(self)@),
    {
        proof {
            reveal_strlit("Merge");
            reveal_strlit("Script");
        }
        let ghost s0 = self@;
        if self.get_item(&String::from_str("Merge")).is_none() {
            self.append_item(PrfItem::from_merge());
        }
        let ghost s1 = self@;
        assert(has_uid(s1, synthetic_uid(ItemType::Script)) == has_uid(s0, synthetic_uid(ItemType::Script))) by {
            if has_uid(s1, synthetic_uid(ItemType::Script)) {
                let i = choose|i: int| 0 <= i < s1.len() && (#[trigger] s1[i]).uid@ == synthetic_uid(ItemType::Script);
                if i < s0.len() {
                    assert(s0[i] == s1[i]);
                }
            }
            if has_uid(s0, synthetic_uid(ItemType::Script)) {
                let i = choose|i: int| 0 <= i < s0.len() && (#[trigger] s0[i]).uid@ == synthetic_uid(ItemType::Script);
                assert(s1[i] == s0[i]);
            }
        }
        if self.get_item(&String::from_str("Script")).is_none() {
            self.append_item(PrfItem::from_script());
        }
        assert(self@.subrange(0, s0.len() as int) =~= s0);
    }
}

impl ConfigValue for IProfiles {
    fn duplicate(&self) -> (r: IProfiles) {
        let mut items: Vec<PrfItem> = Vec::new();
        let mut i: usize = 0;
        while i < self.items.len()
            invariant
                i <= self.items.len(),
                items@ == self.items@.subrange(0, i as int),
            decreases self.items.len() - i,
        {
            items.push(self.items[i].duplicate());
            i = i + 1;
        }
        assert(self.items@.subrange(0, self.items.len() as int) =~= self.items@);
        IProfiles { items }
    }
}

proof fn lemma_count_push(s: Seq<PrfItem>, x: PrfItem, uid: Seq<char>)
    ensures
        count_uid(s.push(x), uid) == count_uid(s, uid) + if x.uid@ == uid {
            1nat
        } else {
            0nat
        },
{
    assert(s.push(x).drop_last() =~= s);
}

proof fn lemma_count_has(s: Seq<PrfItem>, uid: Seq<char>)
    ensures
        has_uid(s, uid) <==> count_uid(s, uid) > 0,
    decreases s.len(),
{
    if s.len() > 0 {
        let t = s.drop_last();
        lemma_count_has(t, uid);
        if has_uid(t, uid) {
            let i = choose|i: int| 0 <= i < t.len() && (#[trigger] t[i]).uid@ == uid;
            assert(s[i] == t[i]);
        }
        if has_uid(s, uid) && s.last().uid@ != uid {
            let i = choose|i: int| 0 <= i < s.len() && (#[trigger] s[i]).uid@ == uid;
            assert(t[i] == s[i]);
        }
    }
}

/// What one run of adding the synthetic items leaves in the list.
proof fn lemma_ensured_shape(s0: Seq<PrfItem>, s1: Seq<PrfItem>)
    requires
        ensured_items(s0, s1),
    ensures
        has_uid(s1, synthetic_uid(ItemType::Merge)),
        has_uid(s1, synthetic_uid(ItemType::Script)),
        count_uid(s0, synthetic_uid(ItemType::Merge)) <= 1 ==> count_uid(
            s1,
            synthetic_uid(ItemType::Merge),
        ) == 1,
        count_uid(s0, synthetic_uid(ItemType::Script)) <= 1 ==> count_uid(
            s1,
            synthetic_uid(ItemType::Script),
        ) == 1,
{
    reveal_strlit("Merge");
    reveal_strlit("Script");
    let m = synthetic_uid(ItemType::Merge);
    let k = synthetic_uid(ItemType::Script);
    assert(m != k) by {
        assert(m.len() != k.len());
    }
    let add_m = !has_uid(s0, m);
    let add_k = !has_uid(s0, k);
    assert(s1.subrange(0, s0.len() as int) == s0);
    lemma_count_has(s0, m);
    lemma_count_has(s0, k);
    if add_m && add_k {
        let a = s1[s0.len() as int];
        let b = s1[s0.len() + 1int];
        assert(s1 =~= s0.push(a).push(b));
        lemma_count_push(s0, a, m);
        lemma_count_push(s0.push(a), b, m);
        lemma_count_push(s0, a, k);
        lemma_count_push(s0.push(a), b, k);
    } else if add_m {
        let a = s1[s0.len() as int];
        assert(s1 =~= s0.push(a));
        lemma_count_push(s0, a, m);
        lemma_count_push(s0, a, k);
    } else if add_k {
        let b = s1[s0.len() as int];
        assert(s1 =~= s0.push(b));
        lemma_count_push(s0, b, m);
        lemma_count_push(s0, b, k);
    } else {
        assert(s1 =~= s0);
    }
    lemma_count_has(s1, m);
    lemma_count_has(s1, k);
}

/// Adding the synthetic items is idempotent: a second run on its own result
/// adds nothing. After a run the list holds a "Merge" and a "Script" item,
/// and exactly one of each where it held at most one of each before.
pub proof fn law_ensure_synthetic_idempotent(s0: Seq<PrfItem>, s1: Seq<PrfItem>, s2: Seq<PrfItem>)
    requires
        ensured_items(s0, s1),
        ensured_items(s1, s2),
    ensures
        s2 == s1,
        has_uid(s2, synthetic_uid(ItemType::Merge)),
        has_uid(s2, synthetic_uid(ItemType::Script)),
        count_uid(s0, synthetic_uid(ItemType::Merge)) <= 1 ==> count_uid(
            s2,
            synthetic_uid(ItemType::Merge),
        ) == 1,
        count_uid(s0, synthetic_uid(ItemType::Script)) <= 1 ==> count_uid(
            s2,
            synthetic_uid(ItemType::Script),
        ) == 1,
{
    lemma_ensured_shape(s0, s1);
    assert(s2.subrange(0, s1.len() as int) == s1);
    assert(s2 =~= s1);
}

} // verus!
