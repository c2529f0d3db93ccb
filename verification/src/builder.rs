//! Builds the presence payload for a request.

use crate::config::{ActivityConfig, ActivityKind};
use crate::payload::{
    buttons_for, join_url_for, payload_for, state_for, ActivityPayload, Assets, Button, Party,
};
use crate::text::{opt_text, starts_with, trim};
use crate::token::{fresh_party_id, is_fresh_party_id};
use vstd::prelude::*;
use vstd::string::*;

verus! {

/// The status line for a request.
pub fn server_state(on_server: bool, server_name: &Option<String>) -> (state: Option<String>)
    ensures
        opt_text(state) == state_for(on_server, opt_text(*server_name)),
{
    match server_name {
        Some(name) => if on_server && !name.as_str().is_empty() {
            Some("Playing on ".to_owned().concat(name.as_str()))
        } else {
            None
        },
        None => None,
    }
}

/// The address for the join button, if the request gives a usable one.
pub fn join_url(raw: &Option<String>) -> (url: Option<String>)
    ensures
        opt_text(url) == join_url_for(opt_text(*raw)),
{
    match raw {
        Some(text) => {
            let address = trim(text.as_str());
            if address.is_empty() {
                None
            } else if starts_with(address, "http://") || starts_with(address, "https://") {
                Some(address.to_owned())
            } else {
                Some("https://".to_owned().concat(address))
            }
        },
        None => None,
    }
}

/// The buttons for a request, in display order.
pub fn buttons(join_server_url: &Option<String>, show_orbis_button: bool) -> (list: Vec<Button>)
    ensures
        list@.map_values(|button: Button| button@) == buttons_for(
            opt_text(*join_server_url),
            show_orbis_button,
        ),
{
    let mut list: Vec<Button> = Vec::new();
    if let Some(url) = join_url(join_server_url) {
        list.push(Button { label: "Join Server".to_owned(), url });
    }
    if show_orbis_button {
        list.push(
            Button {
                label: "Discover more on Orbis".to_owned(),
                url: "https://orbis.place".to_owned(),
            },
        );
    }
    assert(list@.map_values(|button: Button| button@) =~= buttons_for(
        opt_text(*join_server_url),
        show_orbis_button,
    ));
    list
}

/// Builds the payload for `config` with the given party identifier.
pub fn build_with_party_id(
    config: &ActivityConfig,
    session_start: Option<i64>,
    party_id: String,
) -> (payload: ActivityPayload)
    ensures
        payload@ == payload_for(config@, session_start, party_id@),
{
    let details = ActivityKind::from_tag(config.activity_type.as_str()).details(
        &config.custom_activity,
    );
    let assets = Assets {
        large_image: "hytale_logo".to_owned(),
        large_text: "Hytale".to_owned(),
        small_image: config.activity_type.clone(),
        small_text: details.clone(),
    };
    let timestamp = if config.show_elapsed {
        session_start
    } else {
        None
    };
    let party = if config.on_server {
        Some(Party { id: party_id, size: config.party_size, max: config.party_max })
    } else {
        None
    };
    ActivityPayload {
        details,
        state: server_state(config.on_server, &config.server_name),
        assets,
        timestamp,
        party,
        buttons: buttons(&config.join_server_url, config.show_orbis_button),
    }
}

/// Builds the payload for `config`, with a fresh party identifier.
pub fn build(config: &ActivityConfig, session_start: Option<i64>) -> (payload: ActivityPayload)
    ensures
        exists|party_id: Seq<char>|
            is_fresh_party_id(party_id) && payload@ == #[trigger] payload_for(
                config@,
                session_start,
                party_id,
            ),
{
    build_with_party_id(config, session_start, fresh_party_id())
}

} // verus!
