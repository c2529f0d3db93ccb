//! What the presentation layer asks to be shown, and the fixed table from
//! activity tags to headline texts.

use crate::text::{opt_text, str_eq};
use vstd::prelude::*;
use vstd::string::*;

verus! {

/// One request to show an activity. Built per update and never stored.
#[derive(Debug)]
pub struct ActivityConfig {
    pub activity_type: String,
    pub custom_activity: Option<String>,
    pub server_name: Option<String>,
    pub show_elapsed: bool,
    pub on_server: bool,
    pub party_size: i32,
    pub party_max: i32,
    pub join_server_url: Option<String>,
    pub show_orbis_button: bool,
}

/// The mathematical content of an [`ActivityConfig`].
pub struct ActivityConfigView {
    pub activity_type: Seq<char>,
    pub custom_activity: Option<Seq<char>>,
    pub server_name: Option<Seq<char>>,
    pub show_elapsed: bool,
    pub on_server: bool,
    pub party_size: i32,
    pub party_max: i32,
    pub join_server_url: Option<Seq<char>>,
    pub show_orbis_button: bool,
}

impl View for ActivityConfig {
    type V = ActivityConfigView;

    open spec fn view(&self) -> ActivityConfigView {
        ActivityConfigView {
            activity_type: self.activity_type@,
            custom_activity: opt_text(self.custom_activity),
            server_name: opt_text(self.server_name),
            show_elapsed: self.show_elapsed,
            on_server: self.on_server,
            party_size: self.party_size,
            party_max: self.party_max,
            join_server_url: opt_text(self.join_server_url),
            show_orbis_button: self.show_orbis_button,
        }
    }
}

/// The activities the headline table knows, and `Other` for every tag it does not.
#[derive(Debug, Clone, Copy, PartialEq, Eq)]
pub enum ActivityKind {
    Exploring,
    Building,
    Pvp,
    Dungeon,
    Taming,
    Crafting,
    Adventure,
    Custom,
    Other,
}

/// The headline shown when nothing more specific applies.
pub open spec fn default_details() -> Seq<char> {
    "Playing Hytale"@
}

/// The tags the presentation layer may send, each with the kind it selects.
pub open spec fn tag_table() -> Map<Seq<char>, ActivityKind> {
    map![
        "exploring"@ => ActivityKind::Exploring,
        "building"@ => ActivityKind::Building,
        "pvp"@ => ActivityKind::Pvp,
        "dungeon"@ => ActivityKind::Dungeon,
        "taming"@ => ActivityKind::Taming,
        "crafting"@ => ActivityKind::Crafting,
        "adventure"@ => ActivityKind::Adventure,
        "custom"@ => ActivityKind::Custom,
    ]
}

/// Each of the eight tags is a key of [`tag_table`] with its own kind, and the
/// table has no other key.
pub proof fn lemma_tag_table_rows()
    ensures
        tag_table().contains_key("exploring"@) && tag_table()["exploring"@]
            == ActivityKind::Exploring,
        tag_table().contains_key("building"@) && tag_table()["building"@] == ActivityKind::Building,
        tag_table().contains_key("pvp"@) && tag_table()["pvp"@] == ActivityKind::Pvp,
        tag_table().contains_key("dungeon"@) && tag_table()["dungeon"@] == ActivityKind::Dungeon,
        tag_table().contains_key("taming"@) && tag_table()["taming"@] == ActivityKind::Taming,
        tag_table().contains_key("crafting"@) && tag_table()["crafting"@] == ActivityKind::Crafting,
        tag_table().contains_key("adventure"@) && tag_table()["adventure"@]
            == ActivityKind::Adventure,
        tag_table().contains_key("custom"@) && tag_table()["custom"@] == ActivityKind::Custom,
        tag_table().dom() =~= set![
            "exploring"@,
            "building"@,
            "pvp"@,
            "dungeon"@,
            "taming"@,
            "crafting"@,
            "adventure"@,
            "custom"@,
        ],
{
    reveal_strlit("exploring");
    reveal_strlit("building");
    reveal_strlit("pvp");
    reveal_strlit("dungeon");
    reveal_strlit("taming");
    reveal_strlit("crafting");
    reveal_strlit("adventure");
    reveal_strlit("custom");
    assert("exploring"@.len() == 9 && "adventure"@.len() == 9);
    assert("building"@.len() == 8 && "crafting"@.len() == 8);
    assert("dungeon"@.len() == 7);
    assert("taming"@.len() == 6 && "custom"@.len() == 6);
    assert("pvp"@.len() == 3);
    assert("exploring"@[0] != "adventure"@[0]);
    assert("building"@[0] != "crafting"@[0]);
    assert("taming"@[0] != "custom"@[0]);
}

impl ActivityKind {
    /// The kind a tag selects: its entry in [`tag_table`], and `Other` for a tag
    /// that has none. Tags are matched exactly, case included.
    pub open spec fn of_tag(tag: Seq<char>) -> ActivityKind {
        if tag_table().contains_key(tag) {
            tag_table()[tag]
        } else {
            ActivityKind::Other
        }
    }

    /// The headline of this kind; a custom activity overrides it only for `Custom`,
    /// and only when it is not empty.
    pub open spec fn headline(self, custom: Option<Seq<char>>) -> Seq<char> {
        match self {
            ActivityKind::Exploring => "Exploring the Alterverse"@,
            ActivityKind::Building => "Building in Creative Mode"@,
            ActivityKind::Pvp => "Fighting in PvP Arena"@,
            ActivityKind::Dungeon => "Raiding a Dungeon"@,
            ActivityKind::Taming => "Taming Creatures"@,
            ActivityKind::Crafting => "Crafting Items"@,
            ActivityKind::Adventure => "Adventuring with Friends"@,
            ActivityKind::Custom => match custom {
                Some(text) => if text.len() > 0 {
                    text
                } else {
                    default_details()
                },
                None => default_details(),
            },
            ActivityKind::Other => default_details(),
        }
    }

    /// Looks a tag up in the table.
    pub fn from_tag(tag: &str) -> (kind: ActivityKind)
        ensures
            kind == ActivityKind::of_tag(tag@),
    {
        proof {
            lemma_tag_table_rows();
        }
        if str_eq(tag, "exploring") {
            ActivityKind::Exploring
        } else if str_eq(tag, "building") {
            ActivityKind::Building
        } else if str_eq(tag, "pvp") {
            ActivityKind::Pvp
        } else if str_eq(tag, "dungeon") {
            ActivityKind::Dungeon
        } else if str_eq(tag, "taming") {
            ActivityKind::Taming
        } else if str_eq(tag, "crafting") {
            ActivityKind::Crafting
        } else if str_eq(tag, "adventure") {
            ActivityKind::Adventure
        } else if str_eq(tag, "custom") {
            ActivityKind::Custom
        } else {
            ActivityKind::Other
        }
    }

    /// The headline text of this kind, given the request's custom activity.
    pub fn details(self, custom: &Option<String>) -> (text: String)
        ensures
            text@ == self.headline(opt_text(*custom)),
    {
        match self {
            ActivityKind::Exploring => "Exploring the Alterverse".to_owned(),
            ActivityKind::Building => "Building in Creative Mode".to_owned(),
            ActivityKind::Pvp => "Fighting in PvP Arena".to_owned(),
            ActivityKind::Dungeon => "Raiding a Dungeon".to_owned(),
            ActivityKind::Taming => "Taming Creatures".to_owned(),
            ActivityKind::Crafting => "Crafting Items".to_owned(),
            ActivityKind::Adventure => "Adventuring with Friends".to_owned(),
            ActivityKind::Custom => match custom {
                Some(text) => if text.as_str().is_empty() {
                    "Playing Hytale".to_owned()
                } else {
                    text.clone()
                },
                None => "Playing Hytale".to_owned(),
            },
            ActivityKind::Other => "Playing Hytale".to_owned(),
        }
    }
}

/// The headline for a request: the table's text for its tag, the custom text for
/// a non-empty custom activity, the default for everything else.
pub open spec fn details_for(tag: Seq<char>, custom: Option<Seq<char>>) -> Seq<char> {
    ActivityKind::of_tag(tag).headline(custom)
}

} // verus!
