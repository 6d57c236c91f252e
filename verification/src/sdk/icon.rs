use vstd::prelude::*;
use vstd::string::StringSliceAdditionalSpecFns;
use vstd::utf8::encode_utf8_decode_utf8;

verus! {

/// The map that a sequence of (key, value) insertions leaves: a later insertion of a key
/// replaces an earlier one.
pub open spec fn table_map(entries: Seq<(Seq<char>, Seq<char>)>) -> Map<Seq<char>, Seq<char>>
    decreases entries.len(),
{
    if entries.len() == 0 {
        Map::empty()
    } else {
        table_map(entries.drop_last()).insert(entries.last().0, entries.last().1)
    }
}

/// The insertions that build the weapon-icon table, in order: weapon or item class name,
/// then the glyph of the icon font that draws it.
pub open spec fn icon_entries() -> Seq<(Seq<char>, Seq<char>)> {
    seq![
        ("knife_ct"@, "]"@),
        ("knife_t"@, "["@),
        ("knife"@, "["@),
        ("weapon_deagle"@, "A"@),
        ("weapon_elite"@, "B"@),
        ("weapon_fiveseven"@, "C"@),
        ("weapon_five-seven"@, "C"@),
        ("weapon_glock"@, "D"@),
        ("weapon_hkp2000"@, "E"@),
        ("weapon_p2000"@, "E"@),
        ("weapon_p250"@, "F"@),
        ("weapon_usp_silencer"@, "G"@),
        ("weapon_tec9"@, "H"@),
        ("weapon_cz75a"@, "I"@),
        ("weapon_revolver"@, "J"@),
        ("weapon_mac10"@, "K"@),
        ("weapon_mac-10"@, "K"@),
        ("weapon_ump45"@, "L"@),
        ("weapon_bizon"@, "M"@),
        ("weapon_mp7"@, "N"@),
        ("weapon_mp9"@, "O"@),
        ("weapon_mp5sd"@, "x"@),
        ("weapon_p90"@, "P"@),
        ("weapon_galilar"@, "Q"@),
        ("weapon_galil"@, "Q"@),
        ("weapon_famas"@, "R"@),
        ("weapon_m4a4"@, "S"@),
        ("weapon_m4a1_silencer"@, "T"@),
        ("weapon_m4a1"@, "T"@),
        ("weapon_aug"@, "U"@),
        ("weapon_sg556"@, "V"@),
        ("weapon_ak47"@, "W"@),
        ("weapon_g3sg1"@, "X"@),
        ("weapon_scar20"@, "Y"@),
        ("weapon_awp"@, "Z"@),
        ("weapon_ssg08"@, "a"@),
        ("weapon_ssg-08"@, "a"@),
        ("weapon_xm1014"@, "b"@),
        ("weapon_sawedoff"@, "c"@),
        ("weapon_mag7"@, "d"@),
        ("weapon_nova"@, "e"@),
        ("weapon_negev"@, "f"@),
        ("weapon_m249"@, "g"@),
        ("weapon_taser"@, "h"@),
        ("flashbang_projectile"@, "i"@),
        ("weapon_flashbang"@, "i"@),
        ("hegrenade_projectile"@, "j"@),
        ("weapon_hegrenade"@, "j"@),
        ("smokegrenade_projectile"@, "k"@),
        ("weapon_smokegrenade"@, "k"@),
        ("molotov_projectile"@, "l"@),
        ("weapon_molotov"@, "l"@),
        ("decoy_projectile"@, "m"@),
        ("weapon_decoy"@, "m"@),
        ("incgrenade_projectile"@, "n"@),
        ("weapon_incgrenade"@, "n"@),
        ("weapon_c4"@, "o"@),
        ("defuse kit"@, "r"@)
    ]
}

/// The weapon-icon table: class name to icon glyph.
pub open spec fn icon_table() -> Map<Seq<char>, Seq<char>> {
    table_map(icon_entries())
}

/// The last entry of a key gives its value in the map.
pub proof fn lemma_table_map_last(entries: Seq<(Seq<char>, Seq<char>)>, k: Seq<char>, j: int)
    requires
        0 <= j < entries.len(),
        entries[j].0 == k,
        forall|m: int| j < m < entries.len() ==> entries[m].0 != k,
    ensures
        table_map(entries).contains_key(k),
        table_map(entries)[k] == entries[j].1,
    decreases entries.len(),
{
    if j < entries.len() - 1 {
        let prefix = entries.drop_last();
        lemma_table_map_last(prefix, k, j);
    }
}

/// A key that no entry carries is not in the map.
pub proof fn lemma_table_map_absent(entries: Seq<(Seq<char>, Seq<char>)>, k: Seq<char>)
    requires
        forall|m: int| 0 <= m < entries.len() ==> entries[m].0 != k,
    ensures
        !table_map(entries).contains_key(k),
    decreases entries.len(),
{
    if entries.len() > 0 {
        lemma_table_map_absent(entries.drop_last(), k);
    }
}

/// Inserting one more entry inserts it into the map.
pub proof fn lemma_table_map_push(entries: Seq<(Seq<char>, Seq<char>)>, e: (Seq<char>, Seq<char>))
    ensures
        #[trigger] table_map(entries.push(e)) == table_map(entries).insert(e.0, e.1),
{
    assert(entries.push(e).drop_last() =~= entries);
}

/// The weapon-icon table, key by key: each class name maps to the glyph of the icon font
/// listed for it (where a name is listed twice, the later glyph), and no other name is in
/// the table.
pub proof fn lemma_icon_table_glyphs()
    ensures
        icon_table() == map![
        "knife_ct"@ => "]"@,
        "knife_t"@ => "["@,
        "knife"@ => "["@,
        "weapon_deagle"@ => "A"@,
        "weapon_elite"@ => "B"@,
        "weapon_fiveseven"@ => "C"@,
        "weapon_five-seven"@ => "C"@,
        "weapon_glock"@ => "D"@,
        "weapon_hkp2000"@ => "E"@,
        "weapon_p2000"@ => "E"@,
        "weapon_p250"@ => "F"@,
        "weapon_usp_silencer"@ => "G"@,
        "weapon_tec9"@ => "H"@,
        "weapon_cz75a"@ => "I"@,
        "weapon_revolver"@ => "J"@,
        "weapon_mac10"@ => "K"@,
        "weapon_mac-10"@ => "K"@,
        "weapon_ump45"@ => "L"@,
        "weapon_bizon"@ => "M"@,
        "weapon_mp7"@ => "N"@,
        "weapon_mp9"@ => "O"@,
        "weapon_mp5sd"@ => "x"@,
        "weapon_p90"@ => "P"@,
        "weapon_galilar"@ => "Q"@,
        "weapon_galil"@ => "Q"@,
        "weapon_famas"@ => "R"@,
        "weapon_m4a4"@ => "S"@,
        "weapon_m4a1_silencer"@ => "T"@,
        "weapon_m4a1"@ => "T"@,
        "weapon_aug"@ => "U"@,
        "weapon_sg556"@ => "V"@,
        "weapon_ak47"@ => "W"@,
        "weapon_g3sg1"@ => "X"@,
        "weapon_scar20"@ => "Y"@,
        "weapon_awp"@ => "Z"@,
        "weapon_ssg08"@ => "a"@,
        "weapon_ssg-08"@ => "a"@,
        "weapon_xm1014"@ => "b"@,
        "weapon_sawedoff"@ => "c"@,
        "weapon_mag7"@ => "d"@,
        "weapon_nova"@ => "e"@,
        "weapon_negev"@ => "f"@,
        "weapon_m249"@ => "g"@,
        "weapon_taser"@ => "h"@,
        "flashbang_projectile"@ => "i"@,
        "weapon_flashbang"@ => "i"@,
        "hegrenade_projectile"@ => "j"@,
        "weapon_hegrenade"@ => "j"@,
        "smokegrenade_projectile"@ => "k"@,
        "weapon_smokegrenade"@ => "k"@,
        "molotov_projectile"@ => "l"@,
        "weapon_molotov"@ => "l"@,
        "decoy_projectile"@ => "m"@,
        "weapon_decoy"@ => "m"@,
        "incgrenade_projectile"@ => "n"@,
        "weapon_incgrenade"@ => "n"@,
        "weapon_c4"@ => "o"@,
        "defuse kit"@ => "r"@
        ],
{
    let s0 = Seq::<(Seq<char>, Seq<char>)>::empty();
    let s1 = s0.push(("knife_ct"@, "]"@));
    lemma_table_map_push(s0, ("knife_ct"@, "]"@));
    let s2 = s1.push(("knife_t"@, "["@));
    lemma_table_map_push(s1, ("knife_t"@, "["@));
    let s3 = s2.push(("knife"@, "["@));
    lemma_table_map_push(s2, ("knife"@, "["@));
    let s4 = s3.push(("weapon_deagle"@, "A"@));
    lemma_table_map_push(s3, ("weapon_deagle"@, "A"@));
    let s5 = s4.push(("weapon_elite"@, "B"@));
    lemma_table_map_push(s4, ("weapon_elite"@, "B"@));
    let s6 = s5.push(("weapon_fiveseven"@, "C"@));
    lemma_table_map_push(s5, ("weapon_fiveseven"@, "C"@));
    let s7 = s6.push(("weapon_five-seven"@, "C"@));
    lemma_table_map_push(s6, ("weapon_five-seven"@, "C"@));
    let s8 = s7.push(("weapon_glock"@, "D"@));
    lemma_table_map_push(s7, ("weapon_glock"@, "D"@));
    let s9 = s8.push(("weapon_hkp2000"@, "E"@));
    lemma_table_map_push(s8, ("weapon_hkp2000"@, "E"@));
    let s10 = s9.push(("weapon_p2000"@, "E"@));
    lemma_table_map_push(s9, ("weapon_p2000"@, "E"@));
    let s11 = s10.push(("weapon_p250"@, "F"@));
    lemma_table_map_push(s10, ("weapon_p250"@, "F"@));
    let s12 = s11.push(("weapon_usp_silencer"@, "G"@));
    lemma_table_map_push(s11, ("weapon_usp_silencer"@, "G"@));
    let s13 = s12.push(("weapon_tec9"@, "H"@));
    lemma_table_map_push(s12, ("weapon_tec9"@, "H"@));
    let s14 = s13.push(("weapon_cz75a"@, "I"@));
    lemma_table_map_push(s13, ("weapon_cz75a"@, "I"@));
    let s15 = s14.push(("weapon_revolver"@, "J"@));
    lemma_table_map_push(s14, ("weapon_revolver"@, "J"@));
    let s16 = s15.push(("weapon_mac10"@, "K"@));
    lemma_table_map_push(s15, ("weapon_mac10"@, "K"@));
    let s17 = s16.push(("weapon_mac-10"@, "K"@));
    lemma_table_map_push(s16, ("weapon_mac-10"@, "K"@));
    let s18 = s17.push(("weapon_ump45"@, "L"@));
    lemma_table_map_push(s17, ("weapon_ump45"@, "L"@));
    let s19 = s18.push(("weapon_bizon"@, "M"@));
    lemma_table_map_push(s18, ("weapon_bizon"@, "M"@));
    let s20 = s19.push(("weapon_mp7"@, "N"@));
    lemma_table_map_push(s19, ("weapon_mp7"@, "N"@));
    let s21 = s20.push(("weapon_mp9"@, "O"@));
    lemma_table_map_push(s20, ("weapon_mp9"@, "O"@));
    let s22 = s21.push(("weapon_mp5sd"@, "x"@));
    lemma_table_map_push(s21, ("weapon_mp5sd"@, "x"@));
    let s23 = s22.push(("weapon_p90"@, "P"@));
    lemma_table_map_push(s22, ("weapon_p90"@, "P"@));
    let s24 = s23.push(("weapon_galilar"@, "Q"@));
    lemma_table_map_push(s23, ("weapon_galilar"@, "Q"@));
    let s25 = s24.push(("weapon_galil"@, "Q"@));
    lemma_table_map_push(s24, ("weapon_galil"@, "Q"@));
    let s26 = s25.push(("weapon_famas"@, "R"@));
    lemma_table_map_push(s25, ("weapon_famas"@, "R"@));
    let s27 = s26.push(("weapon_m4a4"@, "S"@));
    lemma_table_map_push(s26, ("weapon_m4a4"@, "S"@));
    let s28 = s27.push(("weapon_m4a1_silencer"@, "T"@));
    lemma_table_map_push(s27, ("weapon_m4a1_silencer"@, "T"@));
    let s29 = s28.push(("weapon_m4a1"@, "T"@));
    lemma_table_map_push(s28, ("weapon_m4a1"@, "T"@));
    let s30 = s29.push(("weapon_aug"@, "U"@));
    lemma_table_map_push(s29, ("weapon_aug"@, "U"@));
    let s31 = s30.push(("weapon_sg556"@, "V"@));
    lemma_table_map_push(s30, ("weapon_sg556"@, "V"@));
    let s32 = s31.push(("weapon_ak47"@, "W"@));
    lemma_table_map_push(s31, ("weapon_ak47"@, "W"@));
    let s33 = s32.push(("weapon_g3sg1"@, "X"@));
    lemma_table_map_push(s32, ("weapon_g3sg1"@, "X"@));
    let s34 = s33.push(("weapon_scar20"@, "Y"@));
    lemma_table_map_push(s33, ("weapon_scar20"@, "Y"@));
    let s35 = s34.push(("weapon_awp"@, "Z"@));
    lemma_table_map_push(s34, ("weapon_awp"@, "Z"@));
    let s36 = s35.push(("weapon_ssg08"@, "a"@));
    lemma_table_map_push(s35, ("weapon_ssg08"@, "a"@));
    let s37 = s36.push(("weapon_ssg-08"@, "a"@));
    lemma_table_map_push(s36, ("weapon_ssg-08"@, "a"@));
    let s38 = s37.push(("weapon_xm1014"@, "b"@));
    lemma_table_map_push(s37, ("weapon_xm1014"@, "b"@));
    let s39 = s38.push(("weapon_sawedoff"@, "c"@));
    lemma_table_map_push(s38, ("weapon_sawedoff"@, "c"@));
    let s40 = s39.push(("weapon_mag7"@, "d"@));
    lemma_table_map_push(s39, ("weapon_mag7"@, "d"@));
    let s41 = s40.push(("weapon_nova"@, "e"@));
    lemma_table_map_push(s40, ("weapon_nova"@, "e"@));
    let s42 = s41.push(("weapon_negev"@, "f"@));
    lemma_table_map_push(s41, ("weapon_negev"@, "f"@));
    let s43 = s42.push(("weapon_m249"@, "g"@));
    lemma_table_map_push(s42, ("weapon_m249"@, "g"@));
    let s44 = s43.push(("weapon_taser"@, "h"@));
    lemma_table_map_push(s43, ("weapon_taser"@, "h"@));
    let s45 = s44.push(("flashbang_projectile"@, "i"@));
    lemma_table_map_push(s44, ("flashbang_projectile"@, "i"@));
    let s46 = s45.push(("weapon_flashbang"@, "i"@));
    lemma_table_map_push(s45, ("weapon_flashbang"@, "i"@));
    let s47 = s46.push(("hegrenade_projectile"@, "j"@));
    lemma_table_map_push(s46, ("hegrenade_projectile"@, "j"@));
    let s48 = s47.push(("weapon_hegrenade"@, "j"@));
    lemma_table_map_push(s47, ("weapon_hegrenade"@, "j"@));
    let s49 = s48.push(("smokegrenade_projectile"@, "k"@));
    lemma_table_map_push(s48, ("smokegrenade_projectile"@, "k"@));
    let s50 = s49.push(("weapon_smokegrenade"@, "k"@));
    lemma_table_map_push(s49, ("weapon_smokegrenade"@, "k"@));
    let s51 = s50.push(("molotov_projectile"@, "l"@));
    lemma_table_map_push(s50, ("molotov_projectile"@, "l"@));
    let s52 = s51.push(("weapon_molotov"@, "l"@));
    lemma_table_map_push(s51, ("weapon_molotov"@, "l"@));
    let s53 = s52.push(("decoy_projectile"@, "m"@));
    lemma_table_map_push(s52, ("decoy_projectile"@, "m"@));
    let s54 = s53.push(("weapon_decoy"@, "m"@));
    lemma_table_map_push(s53, ("weapon_decoy"@, "m"@));
    let s55 = s54.push(("incgrenade_projectile"@, "n"@));
    lemma_table_map_push(s54, ("incgrenade_projectile"@, "n"@));
    let s56 = s55.push(("weapon_incgrenade"@, "n"@));
    lemma_table_map_push(s55, ("weapon_incgrenade"@, "n"@));
    let s57 = s56.push(("weapon_c4"@, "o"@));
    lemma_table_map_push(s56, ("weapon_c4"@, "o"@));
    let s58 = s57.push(("defuse kit"@, "r"@));
    lemma_table_map_push(s57, ("defuse kit"@, "r"@));
    assert(icon_entries() == s58);
    assert(table_map(s0) == Map::<Seq<char>, Seq<char>>::empty());
}

/// Text equality, decided on the UTF-8 bytes.
fn str_eq(a: &str, b: &str) -> (r: bool)
    ensures
        r == (a@ == b@),
{
    let x = a.as_bytes();
    let y = b.as_bytes();
    proof {
        encode_utf8_decode_utf8(a@);
        encode_utf8_decode_utf8(b@);
    }
    if x.len() != y.len() {
        return false;
    }
    let n = x.len();
    for i in 0..n
        invariant
            n == x@.len(),
            n == y@.len(),
            forall|j: int| 0 <= j < i ==> x@[j] == y@[j],
            x@ == a.spec_bytes(),
            y@ == b.spec_bytes(),
    {
        if x[i] != y[i] {
            return false;
        }
    }
    assert(x@ =~= y@);
    true
}

/// Looks up the icon-font glyph that draws a weapon or item.
pub struct IconResolver {
    icons: Vec<(&'static str, &'static str)>,
}

impl View for IconResolver {
    type V = Map<Seq<char>, Seq<char>>;

    /// The table as a map from class name to glyph.
    closed spec fn view(&self) -> Map<Seq<char>, Seq<char>> {
        table_map(self.entries())
    }
}

impl IconResolver {
    /// The entries as (key, value) texts.
    pub closed spec fn entries(&self) -> Seq<(Seq<char>, Seq<char>)> {
        self.icons@.map_values(|p: (&'static str, &'static str)| (p.0@, p.1@))
    }


    /// The resolver over the weapon-icon table.
    #[verifier::rlimit(40)]
    pub fn new() -> (r: Self)
        ensures
            r@ == icon_table(),
    {
        let mut icons: Vec<(&'static str, &'static str)> = Vec::new();
        icons.push(("knife_ct", "]"));
        icons.push(("knife_t", "["));
        icons.push(("knife", "["));
        icons.push(("weapon_deagle", "A"));
        icons.push(("weapon_elite", "B"));
        icons.push(("weapon_fiveseven", "C"));
        icons.push(("weapon_five-seven", "C"));
        icons.push(("weapon_glock", "D"));
        icons.push(("weapon_hkp2000", "E"));
        icons.push(("weapon_p2000", "E"));
        icons.push(("weapon_p250", "F"));
        icons.push(("weapon_usp_silencer", "G"));
        icons.push(("weapon_tec9", "H"));
        icons.push(("weapon_cz75a", "I"));
        icons.push(("weapon_revolver", "J"));
        icons.push(("weapon_mac10", "K"));
        icons.push(("weapon_mac-10", "K"));
        icons.push(("weapon_ump45", "L"));
        icons.push(("weapon_bizon", "M"));
        icons.push(("weapon_mp7", "N"));
        icons.push(("weapon_mp9", "O"));
        icons.push(("weapon_mp5sd", "x"));
        icons.push(("weapon_p90", "P"));
        icons.push(("weapon_galilar", "Q"));
        icons.push(("weapon_galil", "Q"));
        icons.push(("weapon_famas", "R"));
        icons.push(("weapon_m4a4", "S"));
        icons.push(("weapon_m4a1_silencer", "T"));
        icons.push(("weapon_m4a1", "T"));
        icons.push(("weapon_aug", "U"));
        icons.push(("weapon_sg556", "V"));
        icons.push(("weapon_ak47", "W"));
        icons.push(("weapon_g3sg1", "X"));
        icons.push(("weapon_scar20", "Y"));
        icons.push(("weapon_awp", "Z"));
        icons.push(("weapon_ssg08", "a"));
        icons.push(("weapon_ssg-08", "a"));
        icons.push(("weapon_xm1014", "b"));
        icons.push(("weapon_sawedoff", "c"));
        icons.push(("weapon_mag7", "d"));
        icons.push(("weapon_nova", "e"));
        icons.push(("weapon_negev", "f"));
        icons.push(("weapon_m249", "g"));
        icons.push(("weapon_taser", "h"));
        icons.push(("flashbang_projectile", "i"));
        icons.push(("weapon_flashbang", "i"));
        icons.push(("hegrenade_projectile", "j"));
        icons.push(("weapon_hegrenade", "j"));
        icons.push(("smokegrenade_projectile", "k"));
        icons.push(("weapon_smokegrenade", "k"));
        icons.push(("molotov_projectile", "l"));
        icons.push(("weapon_molotov", "l"));
        icons.push(("decoy_projectile", "m"));
        icons.push(("weapon_decoy", "m"));
        icons.push(("incgrenade_projectile", "n"));
        icons.push(("weapon_incgrenade", "n"));
        icons.push(("weapon_c4", "o"));
        icons.push(("defuse kit", "r"));
        let r = IconResolver { icons };
        assert(r.entries() =~= icon_entries());
        r
    }

    /// The glyph for `weapon`, or `None` when the table has no entry for it.
    pub fn resolve_icon(&self, weapon: &str) -> (r: Option<&str>)
        ensures
            r is Some <==> self@.contains_key(weapon@),
            r matches Some(g) ==> g@ == self@[weapon@],
    {
        let mut i = self.icons.len();
        while i > 0
            invariant
                i <= self.icons@.len(),
                self.entries().len() == self.icons@.len(),
                forall|m: int| i <= m < self.icons@.len() ==> self.entries()[m].0 != weapon@,
            decreases i,
        {
            i = i - 1;
            let (key, glyph) = self.icons[i];
            if str_eq(key, weapon) {
                proof {
                    lemma_table_map_last(self.entries(), weapon@, i as int);
                }
                return Some(glyph);
            }
        }
        proof {
            lemma_table_map_absent(self.entries(), weapon@);
        }
        None
    }
}

} // verus!
