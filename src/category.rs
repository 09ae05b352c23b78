//! The categories an app can be filed under.

use vstd::prelude::*;
use crate::json::str_eq;

verus! {

/// A category of the standard list, or a label of the repository's own.
#[derive(Debug, Clone, PartialEq, Eq)]
pub enum Category {
    Connectivity,
    Development,
    Games,
    Graphics,
    Internet,
    Money,
    Multimedia,
    Navigation,
    PhoneAndSms,
    Reading,
    ScienceAndEducation,
    Security,
    SportsAndHealth,
    System,
    Theming,
    Time,
    Writing,
    Custom(String),
}

/// The name under which a standard category is written in the index.
pub open spec fn standard_name(c: Category) -> Seq<char> {
    match c {
        Category::Connectivity => "Connectivity"@,
        Category::Development => "Development"@,
        Category::Games => "Games"@,
        Category::Graphics => "Graphics"@,
        Category::Internet => "Internet"@,
        Category::Money => "Money"@,
        Category::Multimedia => "Multimedia"@,
        Category::Navigation => "Navigation"@,
        Category::PhoneAndSms => "Phone & SMS"@,
        Category::Reading => "Reading"@,
        Category::ScienceAndEducation => "Science & Education"@,
        Category::Security => "Security"@,
        Category::SportsAndHealth => "Sports & Health"@,
        Category::System => "System"@,
        Category::Theming => "Theming"@,
        Category::Time => "Time"@,
        Category::Writing => "Writing"@,
        Category::Custom(s) => s@,
    }
}

/// Whether `name` is the name of a standard category.
pub open spec fn is_standard_name(name: Seq<char>) -> bool {
    exists|c: Category| !(c is Custom) && standard_name(c) == name
}

/// `c` is what the index entry `name` reads as: the standard category of
/// that name, or else the name kept verbatim as a custom label.
pub open spec fn category_named(c: Category, name: Seq<char>) -> bool {
    standard_name(c) == name && ((c is Custom) <==> !is_standard_name(name))
}

impl Category {
    /// Reads a category name of the index.
    pub fn from_name(name: &str) -> (r: Category)
        ensures
            category_named(r, name@),
    {
        let r = if str_eq(name, "Connectivity") {
            Category::Connectivity
        } else if str_eq(name, "Development") {
            Category::Development
        } else if str_eq(name, "Games") {
            Category::Games
        } else if str_eq(name, "Graphics") {
            Category::Graphics
        } else if str_eq(name, "Internet") {
            Category::Internet
        } else if str_eq(name, "Money") {
            Category::Money
        } else if str_eq(name, "Multimedia") {
            Category::Multimedia
        } else if str_eq(name, "Navigation") {
            Category::Navigation
        } else if str_eq(name, "Phone & SMS") {
            Category::PhoneAndSms
        } else if str_eq(name, "Reading") {
            Category::Reading
        } else if str_eq(name, "Science & Education") {
            Category::ScienceAndEducation
        } else if str_eq(name, "Security") {
            Category::Security
        } else if str_eq(name, "Sports & Health") {
            Category::SportsAndHealth
        } else if str_eq(name, "System") {
            Category::System
        } else if str_eq(name, "Theming") {
            Category::Theming
        } else if str_eq(name, "Time") {
            Category::Time
        } else if str_eq(name, "Writing") {
            Category::Writing
        } else {
            let c = Category::Custom(name.to_owned());
            assert forall|d: Category| !(d is Custom) implies standard_name(d) != name@ by {
                match d {
                    Category::Custom(_) => {},
                    _ => {},
                }
            }
            c
        };
        proof {
            if !(r is Custom) {
                assert(standard_name(r) == name@);
            }
        }
        r
    }
}

} // verus!
