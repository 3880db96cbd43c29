//! The enumerations that identify a cache slot and a remote query: the
//! dataset category (currency-like vs item-like) and the league, plus the
//! small provider payload records the core carries but never interprets.
//!
//! Each enumeration offers `from` (validate a name), `to_string` (the name
//! used in queries and cache paths), `from_or_default` (validate or fall back
//! to the documented default, reporting which happened), and `next` (walk all
//! valid values in order, for listings).
use vstd::prelude::*;

verus! {

/// Compares two string slices by their character sequences.
pub fn str_eq(a: &str, b: &str) -> (r: bool)
    ensures
        r == (a@ == b@),
{
    let a_owned: String = a.to_owned();
    let b_owned: String = b.to_owned();
    a_owned == b_owned
}

/// Enumerations whose valid values form one ordered chain: `next` yields the
/// following value, or `None` after the last.
pub trait NextEnum<T> {
    fn next(&self) -> Option<T>;
}

/// The two dataset families the provider serves. They share one loader,
/// cache and matcher design; only the record shape and endpoint differ.
#[derive(PartialEq, Eq, Structural, Clone, Copy, Debug)]
pub enum Category {
    Currency,
    Item,
}

/// The name of a category, as it appears in commands and cache paths.
pub open spec fn category_name(c: Category) -> Seq<char> {
    match c {
        Category::Currency => "Currency"@,
        Category::Item => "Item"@,
    }
}

/// The category a name denotes, if any.
pub open spec fn category_from_name(s: Seq<char>) -> Option<Category> {
    if s == "Currency"@ {
        Some(Category::Currency)
    } else if s == "Item"@ {
        Some(Category::Item)
    } else {
        None
    }
}

impl Category {
    /// Validates a category name. The default category is `Currency`.
    pub fn from(s: &str) -> (r: Option<Category>)
        ensures
            r == category_from_name(s@),
    {
        if str_eq(s, "Currency") {
            Some(Category::Currency)
        } else if str_eq(s, "Item") {
            Some(Category::Item)
        } else {
            None
        }
    }

    /// The category's name.
    pub fn to_string(&self) -> (r: String)
        ensures
            r@ == category_name(*self),
    {
        match self {
            Category::Currency => "Currency".to_owned(),
            Category::Item => "Item".to_owned(),
        }
    }

    /// Validates a category name, falling back to the default category when
    /// the name is not valid; the flag says whether the name was valid.
    pub fn from_or_default(s: &str) -> (r: (bool, Category))
        ensures
            r.0 == (category_from_name(s@) is Some),
            r.1 == match category_from_name(s@) {
                Some(c) => c,
                None => Category::Currency,
            },
    {
        match Self::from(s) {
            Some(c) => (true, c),
            None => (false, Category::Currency),
        }
    }
}

/// The value following a category in the listing order, if any.
pub open spec fn category_next(c: Category) -> Option<Category> {
    match c {
        Category::Currency => Some(Category::Item),
        Category::Item => None,
    }
}

impl NextEnum<Category> for Category {
    fn next(&self) -> (r: Option<Category>)
        ensures
            r == category_next(*self),
    {
        match self {
            Category::Currency => Some(Category::Item),
            Category::Item => None,
        }
    }
}

/// The leagues (game economies) a query can address.
#[derive(PartialEq, Eq, Structural, Clone, Copy, Debug)]
pub enum League {
    Standard,
    Hardcore,
    Ruthless,
    HCRuthless,
    Necropolis,
    NecropolisHC,
    NecropolisRuthless,
    NecropolisHCRuthless,
    Affliction,
    AfflictionHC,
    AfflictionRuthless,
    AfflictionHCRuthless,
}

/// The name of a league, as it appears in queries and cache paths.
pub open spec fn league_name(l: League) -> Seq<char> {
    match l {
        League::Standard => "Standard"@,
        League::Hardcore => "Hardcore"@,
        League::Ruthless => "Ruthless"@,
        League::HCRuthless => "Hardcore+Ruthless"@,
        League::Necropolis => "Necropolis"@,
        League::NecropolisHC => "Hardcore+Necropolis"@,
        League::NecropolisRuthless => "Ruthless+Necropolis"@,
        League::NecropolisHCRuthless => "HC+Ruthless+Necropolis"@,
        League::Affliction => "Affliction"@,
        League::AfflictionHC => "Hardcore+Affliction"@,
        League::AfflictionRuthless => "Ruthless+Affliction"@,
        League::AfflictionHCRuthless => "HC+Ruthless+Affliction"@,
    }
}

/// The league a name denotes, if any.
pub open spec fn league_from_name(s: Seq<char>) -> Option<League> {
    if s == "Standard"@ {
        Some(League::Standard)
    } else if s == "Hardcore"@ {
        Some(League::Hardcore)
    } else if s == "Ruthless"@ {
        Some(League::Ruthless)
    } else if s == "Hardcore+Ruthless"@ {
        Some(League::HCRuthless)
    } else if s == "Necropolis"@ {
        Some(League::Necropolis)
    } else if s == "Hardcore+Necropolis"@ {
        Some(League::NecropolisHC)
    } else if s == "Ruthless+Necropolis"@ {
        Some(League::NecropolisRuthless)
    } else if s == "HC+Ruthless+Necropolis"@ {
        Some(League::NecropolisHCRuthless)
    } else if s == "Affliction"@ {
        Some(League::Affliction)
    } else if s == "Hardcore+Affliction"@ {
        Some(League::AfflictionHC)
    } else if s == "Ruthless+Affliction"@ {
        Some(League::AfflictionRuthless)
    } else if s == "HC+Ruthless+Affliction"@ {
        Some(League::AfflictionHCRuthless)
    } else {
        None
    }
}

impl League {
    /// Validates a league name. The default league is `Necropolis`.
    pub fn from(s: &str) -> (r: Option<League>)
        ensures
            r == league_from_name(s@),
    {
        if str_eq(s, "Standard") {
            Some(League::Standard)
        } else if str_eq(s, "Hardcore") {
            Some(League::Hardcore)
        } else if str_eq(s, "Ruthless") {
            Some(League::Ruthless)
        } else if str_eq(s, "Hardcore+Ruthless") {
            Some(League::HCRuthless)
        } else if str_eq(s, "Necropolis") {
            Some(League::Necropolis)
        } else if str_eq(s, "Hardcore+Necropolis") {
            Some(League::NecropolisHC)
        } else if str_eq(s, "Ruthless+Necropolis") {
            Some(League::NecropolisRuthless)
        } else if str_eq(s, "HC+Ruthless+Necropolis") {
            Some(League::NecropolisHCRuthless)
        } else if str_eq(s, "Affliction") {
            Some(League::Affliction)
        } else if str_eq(s, "Hardcore+Affliction") {
            Some(League::AfflictionHC)
        } else if str_eq(s, "Ruthless+Affliction") {
            Some(League::AfflictionRuthless)
        } else if str_eq(s, "HC+Ruthless+Affliction") {
            Some(League::AfflictionHCRuthless)
        } else {
            None
        }
    }

    /// The league's name.
    pub fn to_string(&self) -> (r: String)
        ensures
            r@ == league_name(*self),
    {
        match self {
            League::Standard => "Standard".to_owned(),
            League::Hardcore => "Hardcore".to_owned(),
            League::Ruthless => "Ruthless".to_owned(),
            League::HCRuthless => "Hardcore+Ruthless".to_owned(),
            League::Necropolis => "Necropolis".to_owned(),
            League::NecropolisHC => "Hardcore+Necropolis".to_owned(),
            League::NecropolisRuthless => "Ruthless+Necropolis".to_owned(),
            League::NecropolisHCRuthless => "HC+Ruthless+Necropolis".to_owned(),
            League::Affliction => "Affliction".to_owned(),
            League::AfflictionHC => "Hardcore+Affliction".to_owned(),
            League::AfflictionRuthless => "Ruthless+Affliction".to_owned(),
            League::AfflictionHCRuthless => "HC+Ruthless+Affliction".to_owned(),
        }
    }

    /// Validates a league name, falling back to the default league when the
    /// name is not valid; the flag says whether the name was valid.
    pub fn from_or_default(s: &str) -> (r: (bool, League))
        ensures
            r.0 == (league_from_name(s@) is Some),
            r.1 == match league_from_name(s@) {
                Some(l) => l,
                None => League::Necropolis,
            },
    {
        match Self::from(s) {
            Some(l) => (true, l),
            None => (false, League::Necropolis),
        }
    }
}

/// The value following a league in the listing order, if any.
pub open spec fn league_next(l: League) -> Option<League> {
    match l {
        League::Standard => Some(League::Hardcore),
        League::Hardcore => Some(League::Ruthless),
        League::Ruthless => Some(League::HCRuthless),
        League::HCRuthless => Some(League::Necropolis),
        League::Necropolis => Some(League::NecropolisHC),
        League::NecropolisHC => Some(League::NecropolisRuthless),
        League::NecropolisRuthless => Some(League::NecropolisHCRuthless),
        League::NecropolisHCRuthless => Some(League::Affliction),
        League::Affliction => Some(League::AfflictionHC),
        League::AfflictionHC => Some(League::AfflictionRuthless),
        League::AfflictionRuthless => Some(League::AfflictionHCRuthless),
        League::AfflictionHCRuthless => None,
    }
}

impl NextEnum<League> for League {
    fn next(&self) -> (r: Option<League>)
        ensures
            r == league_next(*self),
    {
        match self {
            League::Standard => Some(League::Hardcore),
            League::Hardcore => Some(League::Ruthless),
            League::Ruthless => Some(League::HCRuthless),
            League::HCRuthless => Some(League::Necropolis),
            League::Necropolis => Some(League::NecropolisHC),
            League::NecropolisHC => Some(League::NecropolisRuthless),
            League::NecropolisRuthless => Some(League::NecropolisHCRuthless),
            League::NecropolisHCRuthless => Some(League::Affliction),
            League::Affliction => Some(League::AfflictionHC),
            League::AfflictionHC => Some(League::AfflictionRuthless),
            League::AfflictionRuthless => Some(League::AfflictionHCRuthless),
            League::AfflictionHCRuthless => None,
        }
    }
}

/// One item modifier line; provider payload the core never interprets.
pub struct Modifier {
    pub text: String,
    pub optional: bool,
}

/// Trade metadata of an item record; the provider currently sends it empty.
pub struct TradeInfo {}

} // verus!
