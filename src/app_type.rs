//! Product types of Wolfram applications and the tables that identify them.

use vstd::prelude::*;

use crate::platform::str_eq;

verus! {

/// Standalone application type distributed by Wolfram Research.
#[derive(Debug, Clone, Copy, PartialEq, Eq, Structural, Hash)]
pub enum WolframAppType {
    /// Wolfram Mathematica
    Mathematica,
    /// Wolfram Engine
    Engine,
    /// Wolfram Desktop
    Desktop,
    /// Wolfram Player
    Player,
    /// Wolfram Player Pro
    PlayerPro,
    /// Wolfram Finance Platform
    FinancePlatform,
    /// Wolfram Programming Lab
    ProgrammingLab,
    /// Wolfram|Alpha Notebook Edition
    WolframAlphaNotebookEdition,
}

/// The "usefulness" rank of each product type: unrestricted products with a
/// front end first, then the engine, then the restricted products.
pub open spec fn usefulness(t: WolframAppType) -> u32 {
    match t {
        WolframAppType::Desktop => 100,
        WolframAppType::Mathematica => 99,
        WolframAppType::FinancePlatform => 98,
        WolframAppType::ProgrammingLab => 97,
        WolframAppType::Engine => 96,
        WolframAppType::PlayerPro => 95,
        WolframAppType::Player => 94,
        WolframAppType::WolframAlphaNotebookEdition => 93,
    }
}

/// All product types, in the order [`WolframAppType::variants`] lists them.
pub open spec fn variant_order() -> Seq<WolframAppType> {
    seq![
        WolframAppType::Mathematica,
        WolframAppType::Desktop,
        WolframAppType::Engine,
        WolframAppType::Player,
        WolframAppType::PlayerPro,
        WolframAppType::FinancePlatform,
        WolframAppType::ProgrammingLab,
        WolframAppType::WolframAlphaNotebookEdition,
    ]
}

/// The first of `types` whose bundle identifier equals `id` up to ASCII
/// case.
pub open spec fn first_matching_type(types: Seq<WolframAppType>, id: Seq<char>) -> Option<WolframAppType>
    decreases types.len(),
{
    if types.len() == 0 {
        None
    } else if eq_ignore_ascii_case(bundle_id_of(types[0]), id) {
        Some(types[0])
    } else {
        first_matching_type(types.drop_first(), id)
    }
}

/// The variant name of each product type.
pub open spec fn variant_name_of(t: WolframAppType) -> Seq<char> {
    match t {
        WolframAppType::Mathematica => "Mathematica"@,
        WolframAppType::Engine => "Engine"@,
        WolframAppType::Desktop => "Desktop"@,
        WolframAppType::Player => "Player"@,
        WolframAppType::PlayerPro => "PlayerPro"@,
        WolframAppType::FinancePlatform => "FinancePlatform"@,
        WolframAppType::ProgrammingLab => "ProgrammingLab"@,
        WolframAppType::WolframAlphaNotebookEdition => "WolframAlphaNotebookEdition"@,
    }
}

/// The variant names of `types`, separated by `", "`.
pub open spec fn joined_variant_names(types: Seq<WolframAppType>) -> Seq<char>
    decreases types.len(),
{
    if types.len() == 0 {
        Seq::empty()
    } else if types.len() == 1 {
        variant_name_of(types[0])
    } else {
        joined_variant_names(types.drop_last()) + ", "@ + variant_name_of(types.last())
    }
}

/// The product name of each product type.
pub open spec fn product_name_of(t: WolframAppType) -> Seq<char> {
    match t {
        WolframAppType::Mathematica => "Mathematica"@,
        WolframAppType::Engine => "Wolfram Engine"@,
        WolframAppType::Desktop => "Wolfram Desktop"@,
        WolframAppType::Player => "Wolfram Player"@,
        WolframAppType::PlayerPro => "Wolfram Player Pro"@,
        WolframAppType::FinancePlatform => "Wolfram Finance Platform"@,
        WolframAppType::ProgrammingLab => "Wolfram Programming Lab"@,
        WolframAppType::WolframAlphaNotebookEdition => "Wolfram|Alpha Notebook Edition"@,
    }
}

/// The bundle identifier each product type is registered under.
pub open spec fn bundle_id_of(t: WolframAppType) -> Seq<char> {
    match t {
        WolframAppType::Mathematica => "com.wolfram.Mathematica"@,
        WolframAppType::PlayerPro => "com.wolfram.Mathematica.PlayerPro"@,
        WolframAppType::Player => "com.wolfram.Mathematica.Player"@,
        WolframAppType::Desktop => "com.wolfram.Desktop"@,
        WolframAppType::Engine => "com.wolfram.WolframEngine"@,
        WolframAppType::FinancePlatform => "com.wolfram.FinancePlatform"@,
        WolframAppType::ProgrammingLab => "com.wolfram.ProgrammingLab"@,
        WolframAppType::WolframAlphaNotebookEdition => "com.wolfram.WolframAlpha.Notebook"@,
    }
}

/// The product type of a registry `ProductType` code, for the codes that
/// name one.
pub open spec fn product_type_of_code(code: u32) -> Option<WolframAppType> {
    if code == 0x1000_0000 {
        Some(WolframAppType::Mathematica)
    } else if code == 0x0800_0000 {
        Some(WolframAppType::Desktop)
    } else if code == 0x0400_0000 {
        Some(WolframAppType::ProgrammingLab)
    } else if code == 0x0200_0000 {
        Some(WolframAppType::FinancePlatform)
    } else if code == 0x0100_0000 {
        Some(WolframAppType::WolframAlphaNotebookEdition)
    } else if code == 0x0000_8000 {
        Some(WolframAppType::Engine)
    } else if code == 0x0000_4000 {
        Some(WolframAppType::PlayerPro)
    } else if code == 0x0000_0002 {
        Some(WolframAppType::Player)
    } else {
        None
    }
}

/// The product type named by the first line of a license text.
pub open spec fn product_type_of_license_line(line: Seq<char>) -> Option<WolframAppType> {
    if line == "Wolfram Mathematica® License Agreement"@ {
        Some(WolframAppType::Mathematica)
    } else if line == "Free Wolfram Engine(TM) for Developers: Terms and Conditions of Use"@
        || line == "Free Wolfram Engine™ for Developers: Terms and Conditions of Use"@ {
        Some(WolframAppType::Engine)
    } else {
        None
    }
}

/// The product type of a package family name, for the families that are
/// products.
pub open spec fn product_type_of_family(family: Seq<char>) -> Option<WolframAppType> {
    if family == "Wolfram.Mathematica"@ {
        Some(WolframAppType::Mathematica)
    } else if family == "Wolfram.Desktop"@ {
        Some(WolframAppType::Desktop)
    } else if family == "Wolfram.Player"@ {
        Some(WolframAppType::Player)
    } else if family == "Wolfram.FinancePlatform"@ {
        Some(WolframAppType::FinancePlatform)
    } else if family == "Wolfram.ProgrammingLab"@ {
        Some(WolframAppType::ProgrammingLab)
    } else if family == "Wolfram.AlphaNotebook"@ {
        Some(WolframAppType::WolframAlphaNotebookEdition)
    } else if family == "Wolfram.Engine"@ {
        Some(WolframAppType::Engine)
    } else {
        None
    }
}

/// The code point of the ASCII lower case of one character.
pub open spec fn ascii_lower(c: char) -> u32 {
    if 'A' <= c && c <= 'Z' {
        (c as u32 + 32) as u32
    } else {
        c as u32
    }
}

/// Equality of two texts up to ASCII case.
pub open spec fn eq_ignore_ascii_case(a: Seq<char>, b: Seq<char>) -> bool {
    a.len() == b.len() && forall|i: int| 0 <= i < a.len() ==> ascii_lower(a[i]) == ascii_lower(b[i])
}

fn lower_char(c: char) -> (r: u32)
    ensures
        r == ascii_lower(c),
{
    if 'A' <= c && c <= 'Z' {
        (c as u32) + 32
    } else {
        c as u32
    }
}

/// Compares two texts ignoring ASCII case.
pub fn str_eq_ignore_ascii_case(a: &str, b: &str) -> (r: bool)
    ensures
        r == eq_ignore_ascii_case(a@, b@),
{
    let n = a.unicode_len();
    if n != b.unicode_len() {
        return false;
    }
    let mut i: usize = 0;
    while i < n
        invariant
            n == a@.len(),
            n == b@.len(),
            i <= n,
            forall|j: int| 0 <= j < i ==> ascii_lower(a@[j]) == ascii_lower(b@[j]),
        decreases n - i,
    {
        if lower_char(a.get_char(i)) != lower_char(b.get_char(i)) {
            return false;
        }
        i = i + 1;
    }
    true
}

impl WolframAppType {
    /// All product types.
    pub fn variants() -> (r: Vec<WolframAppType>)
        ensures
            r@ == variant_order(),
            r@.len() == 8,
            r@.no_duplicates(),
            forall|t: WolframAppType| r@.contains(t),
    {
        let r = vec![
            WolframAppType::Mathematica,
            WolframAppType::Desktop,
            WolframAppType::Engine,
            WolframAppType::Player,
            WolframAppType::PlayerPro,
            WolframAppType::FinancePlatform,
            WolframAppType::ProgrammingLab,
            WolframAppType::WolframAlphaNotebookEdition,
        ];
        assert(r@ =~= variant_order());
        assert forall|t: WolframAppType| r@.contains(t) by {
            match t {
                WolframAppType::Mathematica => assert(r@[0] == t),
                WolframAppType::Desktop => assert(r@[1] == t),
                WolframAppType::Engine => assert(r@[2] == t),
                WolframAppType::Player => assert(r@[3] == t),
                WolframAppType::PlayerPro => assert(r@[4] == t),
                WolframAppType::FinancePlatform => assert(r@[5] == t),
                WolframAppType::ProgrammingLab => assert(r@[6] == t),
                WolframAppType::WolframAlphaNotebookEdition => assert(r@[7] == t),
            }
        }
        r
    }

    /// The "usefulness" rank of this product type (see [`usefulness`]).
    pub fn ordering_value(&self) -> (r: u32)
        ensures
            r == usefulness(*self),
    {
        match self {
            WolframAppType::Desktop => 100,
            WolframAppType::Mathematica => 99,
            WolframAppType::FinancePlatform => 98,
            WolframAppType::ProgrammingLab => 97,
            WolframAppType::Engine => 96,
            WolframAppType::PlayerPro => 95,
            WolframAppType::Player => 94,
            WolframAppType::WolframAlphaNotebookEdition => 93,
        }
    }

    /// The product name of this type.
    pub fn app_name(&self) -> (r: &'static str)
        ensures
            r@ == product_name_of(*self),
    {
        match self {
            WolframAppType::Mathematica => "Mathematica",
            WolframAppType::Engine => "Wolfram Engine",
            WolframAppType::Desktop => "Wolfram Desktop",
            WolframAppType::Player => "Wolfram Player",
            WolframAppType::PlayerPro => "Wolfram Player Pro",
            WolframAppType::FinancePlatform => "Wolfram Finance Platform",
            WolframAppType::ProgrammingLab => "Wolfram Programming Lab",
            WolframAppType::WolframAlphaNotebookEdition => "Wolfram|Alpha Notebook Edition",
        }
    }

    /// The variant name of this type, as it reads in messages.
    pub fn variant_name(&self) -> (r: &'static str)
        ensures
            r@ == variant_name_of(*self),
    {
        match self {
            WolframAppType::Mathematica => "Mathematica",
            WolframAppType::Engine => "Engine",
            WolframAppType::Desktop => "Desktop",
            WolframAppType::Player => "Player",
            WolframAppType::PlayerPro => "PlayerPro",
            WolframAppType::FinancePlatform => "FinancePlatform",
            WolframAppType::ProgrammingLab => "ProgrammingLab",
            WolframAppType::WolframAlphaNotebookEdition => "WolframAlphaNotebookEdition",
        }
    }

    /// The bundle identifier this product type is registered under.
    pub fn bundle_id(&self) -> (r: &'static str)
        ensures
            r@ == bundle_id_of(*self),
    {
        match self {
            WolframAppType::Mathematica => "com.wolfram.Mathematica",
            WolframAppType::PlayerPro => "com.wolfram.Mathematica.PlayerPro",
            WolframAppType::Player => "com.wolfram.Mathematica.Player",
            WolframAppType::Desktop => "com.wolfram.Desktop",
            WolframAppType::Engine => "com.wolfram.WolframEngine",
            WolframAppType::FinancePlatform => "com.wolfram.FinancePlatform",
            WolframAppType::ProgrammingLab => "com.wolfram.ProgrammingLab",
            WolframAppType::WolframAlphaNotebookEdition => "com.wolfram.WolframAlpha.Notebook",
        }
    }

    /// The first product type, in the order of [`WolframAppType::variants`],
    /// whose bundle identifier equals `bundle_id` up to ASCII case.
    pub fn from_bundle_id(bundle_id: &str) -> (r: Option<WolframAppType>)
        ensures
            r == first_matching_type(variant_order(), bundle_id@),
            r is Some ==> eq_ignore_ascii_case(bundle_id_of(r->Some_0), bundle_id@),
            r is None ==> forall|t: WolframAppType|
                !eq_ignore_ascii_case(#[trigger] bundle_id_of(t), bundle_id@),
    {
        let all = WolframAppType::variants();
        assert(all@.skip(0) =~= all@);
        let mut i: usize = 0;
        while i < all.len()
            invariant
                i <= all@.len(),
                forall|t: WolframAppType| all@.contains(t),
                forall|j: int|
                    0 <= j < i ==> !eq_ignore_ascii_case(bundle_id_of(#[trigger] all@[j]), bundle_id@),
                all@ == variant_order(),
                first_matching_type(variant_order(), bundle_id@) == first_matching_type(
                    all@.skip(i as int),
                    bundle_id@,
                ),
            decreases all@.len() - i,
        {
            let t = all[i];
            assert(all@.skip(i as int)[0] == t);
            if str_eq_ignore_ascii_case(t.bundle_id(), bundle_id) {
                return Some(t);
            }
            assert(all@.skip(i as int).drop_first() =~= all@.skip(i + 1));
            i = i + 1;
        }
        assert(all@.skip(i as int) =~= Seq::<WolframAppType>::empty());
        assert forall|t: WolframAppType| !eq_ignore_ascii_case(#[trigger] bundle_id_of(t), bundle_id@) by {
            assert(all@.contains(t));
            let j = choose|j: int| 0 <= j < all@.len() && all@[j] == t;
            assert(!eq_ignore_ascii_case(bundle_id_of(all@[j]), bundle_id@));
        }
        None
    }

    /// The product type of a registry `ProductType` code.
    pub fn from_windows_product_type(id: u32) -> (r: Option<WolframAppType>)
        ensures
            r == product_type_of_code(id),
    {
        if id == 0x1000_0000 {
            Some(WolframAppType::Mathematica)
        } else if id == 0x0800_0000 {
            Some(WolframAppType::Desktop)
        } else if id == 0x0400_0000 {
            Some(WolframAppType::ProgrammingLab)
        } else if id == 0x0200_0000 {
            Some(WolframAppType::FinancePlatform)
        } else if id == 0x0100_0000 {
            Some(WolframAppType::WolframAlphaNotebookEdition)
        } else if id == 0x0000_8000 {
            Some(WolframAppType::Engine)
        } else if id == 0x0000_4000 {
            Some(WolframAppType::PlayerPro)
        } else if id == 0x0000_0002 {
            Some(WolframAppType::Player)
        } else {
            None
        }
    }

    /// The product type named by the first line of a license text.
    pub fn from_license_line(line: &str) -> (r: Option<WolframAppType>)
        ensures
            r == product_type_of_license_line(line@),
    {
        if str_eq(line, "Wolfram Mathematica® License Agreement") {
            Some(WolframAppType::Mathematica)
        } else if str_eq(line, "Free Wolfram Engine(TM) for Developers: Terms and Conditions of Use")
            || str_eq(line, "Free Wolfram Engine™ for Developers: Terms and Conditions of Use") {
            Some(WolframAppType::Engine)
        } else {
            None
        }
    }

    /// The product type of a package family name.
    pub fn from_package_family(family: &str) -> (r: Option<WolframAppType>)
        ensures
            r == product_type_of_family(family@),
    {
        if str_eq(family, "Wolfram.Mathematica") {
            Some(WolframAppType::Mathematica)
        } else if str_eq(family, "Wolfram.Desktop") {
            Some(WolframAppType::Desktop)
        } else if str_eq(family, "Wolfram.Player") {
            Some(WolframAppType::Player)
        } else if str_eq(family, "Wolfram.FinancePlatform") {
            Some(WolframAppType::FinancePlatform)
        } else if str_eq(family, "Wolfram.ProgrammingLab") {
            Some(WolframAppType::ProgrammingLab)
        } else if str_eq(family, "Wolfram.AlphaNotebook") {
            Some(WolframAppType::WolframAlphaNotebookEdition)
        } else if str_eq(family, "Wolfram.Engine") {
            Some(WolframAppType::Engine)
        } else {
            None
        }
    }
}

} // verus!
