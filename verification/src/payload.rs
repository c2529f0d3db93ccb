//! The presence payload and the rules that derive it from a request.

use crate::config::{details_for, ActivityConfigView};
use crate::text::{has_prefix, trimmed};
use vstd::prelude::*;
use vstd::string::*;

verus! {

/// The two images of a payload, each with its hover text.
#[derive(Debug, PartialEq, Eq)]
pub struct Assets {
    pub large_image: String,
    pub large_text: String,
    pub small_image: String,
    pub small_text: String,
}

/// The group a player is in, shown while on a server.
#[derive(Debug, PartialEq, Eq)]
pub struct Party {
    pub id: String,
    pub size: i32,
    pub max: i32,
}

/// A link shown under the activity.
#[derive(Debug, PartialEq, Eq)]
pub struct Button {
    pub label: String,
    pub url: String,
}

/// One activity update, ready to be sent to the presence service.
#[derive(Debug, PartialEq, Eq)]
pub struct ActivityPayload {
    pub details: String,
    pub state: Option<String>,
    pub assets: Assets,
    pub timestamp: Option<i64>,
    pub party: Option<Party>,
    pub buttons: Vec<Button>,
}

/// The mathematical content of [`Assets`].
pub struct AssetsView {
    pub large_image: Seq<char>,
    pub large_text: Seq<char>,
    pub small_image: Seq<char>,
    pub small_text: Seq<char>,
}

/// The mathematical content of a [`Party`].
pub struct PartyView {
    pub id: Seq<char>,
    pub size: i32,
    pub max: i32,
}

/// The mathematical content of a [`Button`].
pub struct ButtonView {
    pub label: Seq<char>,
    pub url: Seq<char>,
}

/// The mathematical content of an [`ActivityPayload`].
pub struct ActivityPayloadView {
    pub details: Seq<char>,
    pub state: Option<Seq<char>>,
    pub assets: AssetsView,
    pub timestamp: Option<i64>,
    pub party: Option<PartyView>,
    pub buttons: Seq<ButtonView>,
}

impl View for Assets {
    type V = AssetsView;

    open spec fn view(&self) -> AssetsView {
        AssetsView {
            large_image: self.large_image@,
            large_text: self.large_text@,
            small_image: self.small_image@,
            small_text: self.small_text@,
        }
    }
}

impl View for Party {
    type V = PartyView;

    open spec fn view(&self) -> PartyView {
        PartyView { id: self.id@, size: self.size, max: self.max }
    }
}

impl View for Button {
    type V = ButtonView;

    open spec fn view(&self) -> ButtonView {
        ButtonView { label: self.label@, url: self.url@ }
    }
}

impl View for ActivityPayload {
    type V = ActivityPayloadView;

    open spec fn view(&self) -> ActivityPayloadView {
        ActivityPayloadView {
            details: self.details@,
            state: match self.state {
                Some(text) => Some(text@),
                None => None,
            },
            assets: self.assets@,
            timestamp: self.timestamp,
            party: match self.party {
                Some(party) => Some(party@),
                None => None,
            },
            buttons: self.buttons@.map_values(|button: Button| button@),
        }
    }
}

/// The status line: the server's name while on a server that has one.
pub open spec fn state_for(on_server: bool, server_name: Option<Seq<char>>) -> Option<Seq<char>> {
    match server_name {
        Some(name) => if on_server && name.len() > 0 {
            Some("Playing on "@ + name)
        } else {
            None
        },
        None => None,
    }
}

/// The start of the elapsed-time display: the session's start, when the request
/// wants it shown.
pub open spec fn timestamp_for(show_elapsed: bool, session_start: Option<i64>) -> Option<i64> {
    if show_elapsed {
        session_start
    } else {
        None
    }
}

/// The party shown: on a server the given identifier with the request's sizes,
/// otherwise none.
pub open spec fn party_for(on_server: bool, id: Seq<char>, size: i32, max: i32) -> Option<
    PartyView,
> {
    if on_server {
        Some(PartyView { id, size, max })
    } else {
        None
    }
}

/// The address behind the join button: the trimmed address, with `https://` put
/// in front unless it already begins with `http://` or `https://`; none for an
/// address that is absent or blank.
pub open spec fn join_url_for(raw: Option<Seq<char>>) -> Option<Seq<char>> {
    match raw {
        Some(text) => {
            let address = trimmed(text);
            if address.len() == 0 {
                None
            } else if has_prefix(address, "http://"@) || has_prefix(address, "https://"@) {
                Some(address)
            } else {
                Some("https://"@ + address)
            }
        },
        None => None,
    }
}

/// The button that leads to the server.
pub open spec fn join_button(url: Seq<char>) -> ButtonView {
    ButtonView { label: "Join Server"@, url }
}

/// The button that leads to the server directory.
pub open spec fn orbis_button() -> ButtonView {
    ButtonView { label: "Discover more on Orbis"@, url: "https://orbis.place"@ }
}

/// The buttons in display order: the join button if there is an address, then the
/// directory button if asked for.
pub open spec fn buttons_for(join_server_url: Option<Seq<char>>, show_orbis_button: bool) -> Seq<
    ButtonView,
> {
    let join = match join_url_for(join_server_url) {
        Some(url) => seq![join_button(url)],
        None => Seq::empty(),
    };
    if show_orbis_button {
        join.push(orbis_button())
    } else {
        join
    }
}

/// The images: the fixed logo with the product's name, and the activity's own
/// image with the headline as its text.
pub open spec fn assets_for(activity_type: Seq<char>, details: Seq<char>) -> AssetsView {
    AssetsView {
        large_image: "hytale_logo"@,
        large_text: "Hytale"@,
        small_image: activity_type,
        small_text: details,
    }
}

/// The payload for a request, given the start of the current session and the
/// identifier to use for the party.
pub open spec fn payload_for(
    config: ActivityConfigView,
    session_start: Option<i64>,
    party_id: Seq<char>,
) -> ActivityPayloadView {
    let details = details_for(config.activity_type, config.custom_activity);
    ActivityPayloadView {
        details,
        state: state_for(config.on_server, config.server_name),
        assets: assets_for(config.activity_type, details),
        timestamp: timestamp_for(config.show_elapsed, session_start),
        party: party_for(config.on_server, party_id, config.party_size, config.party_max),
        buttons: buttons_for(config.join_server_url, config.show_orbis_button),
    }
}

} // verus!
