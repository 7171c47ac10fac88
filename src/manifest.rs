use vstd::prelude::*;

verus! {

/// What the server says about the pre-built archive of a branch.
#[derive(Clone, Copy, Debug, PartialEq, Eq, Structural)]
pub struct ZipFile {
    /// Size of the archive in bytes.
    pub size: u64,
    /// Whether the server offers an archive at all.
    pub is_present: bool,
    /// Modification time in epoch seconds, kept as the bit pattern of an IEEE-754 double.
    pub mod_date_bits: u64,
}

/// One file of a branch as the server lists it.
#[derive(Clone, Debug)]
pub struct Mod {
    /// File name, unique within a branch.
    pub name: String,
    /// Modification time in epoch seconds, kept as the bit pattern of an IEEE-754 double.
    pub mod_date_bits: u64,
    /// Size of the file in bytes.
    pub size: u64,
    /// Whether the user may leave the file out.
    pub is_optional: bool,
}

/// The mathematical value of a [`Mod`].
pub struct ModView {
    pub name: Seq<char>,
    pub mod_date_bits: u64,
    pub size: u64,
    pub is_optional: bool,
}

impl View for Mod {
    type V = ModView;

    open spec fn view(&self) -> ModView {
        ModView {
            name: self.name@,
            mod_date_bits: self.mod_date_bits,
            size: self.size,
            is_optional: self.is_optional,
        }
    }
}

impl Mod {
    /// A copy of this entry with the same contents.
    pub fn duplicate(&self) -> (r: Mod)
        ensures
            r@ == self@,
    {
        Mod {
            name: self.name.clone(),
            mod_date_bits: self.mod_date_bits,
            size: self.size,
            is_optional: self.is_optional,
        }
    }
}

/// The manifest of one branch: its files, in server order, and its archive.
#[derive(Clone, Debug)]
pub struct BranchInfo {
    pub mods: Vec<Mod>,
    pub zip: ZipFile,
}

/// The views of a sequence of entries.
pub open spec fn mod_views(mods: Seq<Mod>) -> Seq<ModView> {
    mods.map_values(|m: Mod| m@)
}

/// The names of a sequence of entries, in order.
pub open spec fn names_of(mods: Seq<ModView>) -> Seq<Seq<char>> {
    mods.map_values(|m: ModView| m.name)
}

/// The views of a sequence of strings.
pub open spec fn str_views(names: Seq<String>) -> Seq<Seq<char>> {
    names.map_values(|s: String| s@)
}

/// Whether `name` occurs among `names`, compared by contents.
pub fn contains_name(names: &Vec<String>, name: &String) -> (r: bool)
    ensures
        r == str_views(names@).contains(name@),
{
    let mut i: usize = 0;
    while i < names.len()
        invariant
            i <= names.len(),
            forall|j: int| 0 <= j < i ==> names@[j]@ != name@,
        decreases names.len() - i,
    {
        if names[i] == *name {
            assert(str_views(names@)[i as int] == name@);
            return true;
        }
        i = i + 1;
    }
    proof {
        if str_views(names@).contains(name@) {
            let k = choose|k: int| 0 <= k < str_views(names@).len() && str_views(names@)[k] == name@;
            assert(names@[k]@ == name@);
        }
    }
    false
}

} // verus!
