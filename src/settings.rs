use vstd::prelude::*;
use crate::draft::ConfigValue;

verus! {

/// One key of a settings document with its value, both as text.
pub struct Setting {
    pub key: String,
    pub value: String,
}

impl Setting {
    /// An exact copy of the entry.
    pub fn duplicate(&self) -> (r: Setting)
        ensures
            r == *self,
    {
        Setting { key: self.key.clone(), value: self.value.clone() }
    }
}

/// An exact copy of a list of settings.
pub fn duplicate_settings(v: &Vec<Setting>) -> (r: Vec<Setting>)
    ensures
        r@ == v@,
{
    let mut r: Vec<Setting> = Vec::new();
    let mut i: usize = 0;
    while i < v.len()
        invariant
            i <= v.len(),
            r@ == v@.subrange(0, i as int),
        decreases v.len() - i,
    {
        r.push(v[i].duplicate());
        i = i + 1;
    }
    assert(v@.subrange(0, v.len() as int) =~= v@);
    r
}

/// An exact copy of a list of strings.
pub fn duplicate_strings(v: &Vec<String>) -> (r: Vec<String>)
    ensures
        r@ == v@,
{
    let mut r: Vec<String> = Vec::new();
    let mut i: usize = 0;
    while i < v.len()
        invariant
            i <= v.len(),
            r@ == v@.subrange(0, i as int),
        decreases v.len() - i,
    {
        r.push(v[i].clone());
        i = i + 1;
    }
    assert(v@.subrange(0, v.len() as int) =~= v@);
    r
}

/// The template of the engine's settings.
pub struct IClashTemp {
    pub settings: Vec<Setting>,
}

impl View for IClashTemp {
    type V = Seq<Setting>;

    open spec fn view(&self) -> Seq<Setting> {
        self.settings@
    }
}

impl IClashTemp {
    /// The template as it stands before anything was configured.
    pub fn new() -> (r: IClashTemp)
        ensures
            r@ == Seq::<Setting>::empty(),
    {
        IClashTemp { settings: Vec::new() }
    }
}

impl ConfigValue for IClashTemp {
    fn duplicate(&self) -> (r: IClashTemp) {
        IClashTemp { settings: duplicate_settings(&self.settings) }
    }
}

/// The application's own settings.
pub struct IVerge {
    pub settings: Vec<Setting>,
}

impl View for IVerge {
    type V = Seq<Setting>;

    open spec fn view(&self) -> Seq<Setting> {
        self.settings@
    }
}

impl IVerge {
    /// The application settings before anything was configured.
    pub fn new() -> (r: IVerge)
        ensures
            r@ == Seq::<Setting>::empty(),
    {
        IVerge { settings: Vec::new() }
    }
}

impl ConfigValue for IVerge {
    fn duplicate(&self) -> (r: IVerge) {
        IVerge { settings: duplicate_settings(&self.settings) }
    }
}

} // verus!
