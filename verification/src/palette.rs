//! The fixed palette: an ordered list of named colors with exact reverse
//! lookup from an RGB triple to the entry's position.

use vstd::prelude::*;
use vstd::string::StringExecFns;
use std::collections::HashMap;

verus! {

broadcast use vstd::std_specs::hash::group_hash_axioms;

/// One palette entry: a human-readable label and its exact 24-bit color.
#[derive(Debug)]
pub struct PaletteColor {
    pub name: String,
    pub rgb: (u8, u8, u8),
}

impl Clone for PaletteColor {
    fn clone(&self) -> (r: Self)
        ensures
            r == *self,
    {
        PaletteColor { name: self.name.clone(), rgb: self.rgb }
    }
}

/// Packs an RGB triple into a single integer key, one key per triple.
pub open spec fn rgb_key_spec(rgb: (u8, u8, u8)) -> u32 {
    (rgb.0 * 0x1_0000 + rgb.1 * 0x100 + rgb.2) as u32
}

fn rgb_key(rgb: (u8, u8, u8)) -> (k: u32)
    ensures
        k == rgb_key_spec(rgb),
{
    (rgb.0 as u32) * 0x1_0000 + (rgb.1 as u32) * 0x100 + (rgb.2 as u32)
}

/// Two RGB triples with the same packed key are the same triple.
pub proof fn lemma_rgb_key_injective(a: (u8, u8, u8), b: (u8, u8, u8))
    ensures
        rgb_key_spec(a) == rgb_key_spec(b) ==> a == b,
{
    assert(rgb_key_spec(a) == rgb_key_spec(b) ==> a == b) by {
        if rgb_key_spec(a) == rgb_key_spec(b) {
            assert(a.0 * 0x1_0000 + a.1 * 0x100 + a.2 == b.0 * 0x1_0000 + b.1 * 0x100 + b.2);
            assert(a.0 == b.0 && a.1 == b.1 && a.2 == b.2);
        }
    }
}

/// The ordered color list together with its reverse-lookup map; the position
/// of an entry is its palette index.
pub struct PaletteTable {
    colors: Vec<PaletteColor>,
    lookup: HashMap<u32, usize>,
}

impl PaletteTable {
    /// The ordered entries, as contracts speak of them.
    pub closed spec fn colors_seq(&self) -> Seq<PaletteColor> {
        self.colors@
    }

    /// Well-formedness: entries have pairwise distinct colors and the lookup
    /// map binds exactly the packed key of each entry to its position.
    pub closed spec fn wf(&self) -> bool {
        &&& forall|i: int, j: int|
            0 <= i < j < self.colors@.len() ==> self.colors@[i].rgb != self.colors@[j].rgb
        &&& forall|i: int|
            0 <= i < self.colors@.len() ==> {
                &&& #[trigger] self.lookup@.contains_key(rgb_key_spec(self.colors@[i].rgb))
                &&& self.lookup@[rgb_key_spec(self.colors@[i].rgb)] as int == i
            }
        &&& forall|k: u32|
            #[trigger] self.lookup@.contains_key(k) ==> exists|i: int|
                0 <= i < self.colors@.len() && k == rgb_key_spec(#[trigger] self.colors@[i].rgb)
    }

    /// Builds a table from an ordered list of entries; rejects a list in
    /// which two entries share an RGB triple.
    pub fn from_colors(colors: Vec<PaletteColor>) -> (r: Option<PaletteTable>)
        ensures
            match r {
                Some(t) => t.wf() && t.colors_seq() == colors@,
                None => exists|i: int, j: int|
                    0 <= i < j < colors@.len() && colors@[i].rgb == colors@[j].rgb,
            },
    {
        let mut lookup: HashMap<u32, usize> = HashMap::new();
        let n = colors.len();
        for i in 0..n
            invariant
                n == colors@.len(),
                forall|j: int|
                    0 <= j < i ==> {
                        &&& #[trigger] lookup@.contains_key(rgb_key_spec(colors@[j].rgb))
                        &&& lookup@[rgb_key_spec(colors@[j].rgb)] as int == j
                    },
                forall|k: u32|
                    #[trigger] lookup@.contains_key(k) ==> exists|j: int|
                        0 <= j < i && k == rgb_key_spec(#[trigger] colors@[j].rgb),
                forall|j1: int, j2: int|
                    0 <= j1 < j2 < i ==> colors@[j1].rgb != colors@[j2].rgb,
        {
            let key = rgb_key(colors[i].rgb);
            if lookup.contains_key(&key) {
                proof {
                    let j = choose|j: int|
                        0 <= j < i && key == rgb_key_spec(colors@[j].rgb);
                    lemma_rgb_key_injective(colors@[j].rgb, colors@[i as int].rgb);
                    assert(colors@[j].rgb == colors@[i as int].rgb);
                }
                return None;
            }
            lookup.insert(key, i);
            proof {
                assert forall|j1: int, j2: int| 0 <= j1 < j2 < i + 1 implies
                    colors@[j1].rgb != colors@[j2].rgb by {
                    if j2 == i as int && colors@[j1].rgb == colors@[j2].rgb {
                        assert(lookup@.contains_key(rgb_key_spec(colors@[j1].rgb)));
                    }
                }
            }
        }
        let t = PaletteTable { colors, lookup };
        proof {
            assert forall|k: u32| #[trigger] t.lookup@.contains_key(k) implies exists|i: int|
                0 <= i < t.colors@.len() && k == rgb_key_spec(#[trigger] t.colors@[i].rgb) by {
                let j = choose|j: int|
                    0 <= j < t.colors@.len() && k == rgb_key_spec(t.colors@[j].rgb);
                assert(0 <= j < t.colors@.len() && k == rgb_key_spec(t.colors@[j].rgb));
            }
        }
        Some(t)
    }

    /// How many entries the palette has.
    pub fn len(&self) -> (n: usize)
        ensures
            n == self.colors_seq().len(),
    {
        self.colors.len()
    }

    /// The entry at a given palette index.
    pub fn color_at(&self, i: usize) -> (c: &PaletteColor)
        requires
            i < self.colors_seq().len(),
        ensures
            *c == self.colors_seq()[i as int],
    {
        &self.colors[i]
    }

    /// Exact reverse lookup: the position of the unique entry with this RGB
    /// triple, or `None` when no entry has it.
    pub fn index_of(&self, rgb: (u8, u8, u8)) -> (r: Option<usize>)
        requires
            self.wf(),
        ensures
            match r {
                Some(i) => i < self.colors_seq().len() && self.colors_seq()[i as int].rgb == rgb,
                None => forall|j: int|
                    0 <= j < self.colors_seq().len() ==> self.colors_seq()[j].rgb != rgb,
            },
    {
        let key = rgb_key(rgb);
        match self.lookup.get(&key) {
            Some(i) => {
                proof {
                    let j = choose|j: int|
                        0 <= j < self.colors@.len() && key == rgb_key_spec(self.colors@[j].rgb);
                    lemma_rgb_key_injective(self.colors@[j].rgb, rgb);
                }
                Some(*i)
            },
            None => {
                proof {
                    assert forall|j: int|
                        0 <= j < self.colors@.len() implies self.colors@[j].rgb != rgb by {
                        if self.colors@[j].rgb == rgb {
                            assert(self.lookup@.contains_key(rgb_key_spec(self.colors@[j].rgb)));
                        }
                    }
                }
                None
            },
        }
    }
}

/// Number of entries in the default palette.
pub open spec fn palette_len() -> int {
    32
}

/// The RGB triple of entry `i` of the default palette.
pub open spec fn palette_rgb(i: int) -> (u8, u8, u8) {
    if i == 0 { (109u8, 0u8, 26u8) }
    else if i == 1 { (190u8, 0u8, 57u8) }
    else if i == 2 { (255u8, 69u8, 0u8) }
    else if i == 3 { (255u8, 168u8, 0u8) }
    else if i == 4 { (255u8, 214u8, 53u8) }
    else if i == 5 { (255u8, 248u8, 184u8) }
    else if i == 6 { (0u8, 163u8, 104u8) }
    else if i == 7 { (0u8, 204u8, 120u8) }
    else if i == 8 { (126u8, 237u8, 86u8) }
    else if i == 9 { (0u8, 117u8, 111u8) }
    else if i == 10 { (0u8, 158u8, 170u8) }
    else if i == 11 { (0u8, 204u8, 192u8) }
    else if i == 12 { (36u8, 80u8, 164u8) }
    else if i == 13 { (54u8, 144u8, 234u8) }
    else if i == 14 { (81u8, 233u8, 244u8) }
    else if i == 15 { (73u8, 58u8, 193u8) }
    else if i == 16 { (106u8, 92u8, 255u8) }
    else if i == 17 { (148u8, 179u8, 255u8) }
    else if i == 18 { (129u8, 30u8, 159u8) }
    else if i == 19 { (180u8, 74u8, 192u8) }
    else if i == 20 { (228u8, 171u8, 255u8) }
    else if i == 21 { (222u8, 49u8, 99u8) }
    else if i == 22 { (255u8, 56u8, 129u8) }
    else if i == 23 { (255u8, 153u8, 170u8) }
    else if i == 24 { (109u8, 72u8, 47u8) }
    else if i == 25 { (156u8, 105u8, 38u8) }
    else if i == 26 { (255u8, 180u8, 112u8) }
    else if i == 27 { (0u8, 0u8, 0u8) }
    else if i == 28 { (81u8, 82u8, 82u8) }
    else if i == 29 { (137u8, 141u8, 144u8) }
    else if i == 30 { (212u8, 215u8, 217u8) }
    else { (255u8, 255u8, 255u8) }
}

/// The label of entry `i` of the default palette.
pub open spec fn palette_name(i: int) -> Seq<char> {
    if i == 0 { "burgundy"@ }
    else if i == 1 { "dark red"@ }
    else if i == 2 { "red"@ }
    else if i == 3 { "orange"@ }
    else if i == 4 { "yellow"@ }
    else if i == 5 { "pale yellow"@ }
    else if i == 6 { "dark green"@ }
    else if i == 7 { "green"@ }
    else if i == 8 { "light green"@ }
    else if i == 9 { "dark teal"@ }
    else if i == 10 { "teal"@ }
    else if i == 11 { "light teal"@ }
    else if i == 12 { "dark blue"@ }
    else if i == 13 { "blue"@ }
    else if i == 14 { "light blue"@ }
    else if i == 15 { "indigo"@ }
    else if i == 16 { "periwinkle"@ }
    else if i == 17 { "lavender"@ }
    else if i == 18 { "dark purple"@ }
    else if i == 19 { "purple"@ }
    else if i == 20 { "pale purple"@ }
    else if i == 21 { "magenta"@ }
    else if i == 22 { "pink"@ }
    else if i == 23 { "light pink"@ }
    else if i == 24 { "dark brown"@ }
    else if i == 25 { "brown"@ }
    else if i == 26 { "beige"@ }
    else if i == 27 { "black"@ }
    else if i == 28 { "dark gray"@ }
    else if i == 29 { "gray"@ }
    else if i == 30 { "light gray"@ }
    else { "white"@ }
}

/// No two entries of the default palette share an RGB triple.
pub proof fn lemma_default_palette_distinct()
    ensures
        forall|i: int, j: int|
            0 <= i < j < palette_len() ==> palette_rgb(i) != palette_rgb(j),
{
}

fn palette_entry(i: usize) -> (c: PaletteColor)
    requires
        i < palette_len(),
    ensures
        c.name@ == palette_name(i as int),
        c.rgb == palette_rgb(i as int),
{
    let (name, rgb): (&str, (u8, u8, u8)) =
        if i == 0 { ("burgundy", (109, 0, 26)) }
        else if i == 1 { ("dark red", (190, 0, 57)) }
        else if i == 2 { ("red", (255, 69, 0)) }
        else if i == 3 { ("orange", (255, 168, 0)) }
        else if i == 4 { ("yellow", (255, 214, 53)) }
        else if i == 5 { ("pale yellow", (255, 248, 184)) }
        else if i == 6 { ("dark green", (0, 163, 104)) }
        else if i == 7 { ("green", (0, 204, 120)) }
        else if i == 8 { ("light green", (126, 237, 86)) }
        else if i == 9 { ("dark teal", (0, 117, 111)) }
        else if i == 10 { ("teal", (0, 158, 170)) }
        else if i == 11 { ("light teal", (0, 204, 192)) }
        else if i == 12 { ("dark blue", (36, 80, 164)) }
        else if i == 13 { ("blue", (54, 144, 234)) }
        else if i == 14 { ("light blue", (81, 233, 244)) }
        else if i == 15 { ("indigo", (73, 58, 193)) }
        else if i == 16 { ("periwinkle", (106, 92, 255)) }
        else if i == 17 { ("lavender", (148, 179, 255)) }
        else if i == 18 { ("dark purple", (129, 30, 159)) }
        else if i == 19 { ("purple", (180, 74, 192)) }
        else if i == 20 { ("pale purple", (228, 171, 255)) }
        else if i == 21 { ("magenta", (222, 49, 99)) }
        else if i == 22 { ("pink", (255, 56, 129)) }
        else if i == 23 { ("light pink", (255, 153, 170)) }
        else if i == 24 { ("dark brown", (109, 72, 47)) }
        else if i == 25 { ("brown", (156, 105, 38)) }
        else if i == 26 { ("beige", (255, 180, 112)) }
        else if i == 27 { ("black", (0, 0, 0)) }
        else if i == 28 { ("dark gray", (81, 82, 82)) }
        else if i == 29 { ("gray", (137, 141, 144)) }
        else if i == 30 { ("light gray", (212, 215, 217)) }
        else { ("white", (255, 255, 255)) };
    PaletteColor { name: String::from_str(name), rgb }
}

impl PaletteTable {
    /// Builds the fixed default palette, in its defined order.
    pub fn build() -> (t: PaletteTable)
        ensures
            t.wf(),
            t.colors_seq().len() == palette_len(),
            forall|i: int|
                0 <= i < palette_len() ==> {
                    &&& (#[trigger] t.colors_seq()[i]).rgb == palette_rgb(i)
                    &&& t.colors_seq()[i].name@ == palette_name(i)
                },
    {
        let mut colors: Vec<PaletteColor> = Vec::new();
        for i in 0..32usize
            invariant
                colors@.len() == i,
                forall|j: int|
                    0 <= j < i ==> {
                        &&& (#[trigger] colors@[j]).rgb == palette_rgb(j)
                        &&& colors@[j].name@ == palette_name(j)
                    },
        {
            colors.push(palette_entry(i));
        }
        proof {
            lemma_default_palette_distinct();
        }
        match PaletteTable::from_colors(colors) {
            Some(t) => t,
            None => {
                proof {
                    assert(false);
                }
                vstd::pervasive::unreached()
            },
        }
    }
}

/// Law: in a well-formed palette no two entries share an RGB triple, so each
/// defined color resolves to exactly one palette index.
pub proof fn lemma_palette_uniqueness(t: &PaletteTable)
    requires
        t.wf(),
    ensures
        forall|i: int, j: int|
            0 <= i < j < t.colors_seq().len() ==> t.colors_seq()[i].rgb != t.colors_seq()[j].rgb,
        forall|i: int, j: int|
            0 <= i < t.colors_seq().len() && 0 <= j < t.colors_seq().len()
                && t.colors_seq()[i].rgb == t.colors_seq()[j].rgb ==> i == j,
{
}

} // verus!
