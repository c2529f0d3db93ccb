//! Laws of the payload rules and of the connection state machine, each proved
//! from the definitions that the contracts are stated in.

use crate::config::{default_details, details_for, lemma_tag_table_rows, tag_table, ActivityConfigView};
use crate::connection::{
    connect_step, disconnect_step, handle_of, reply_after_handshake, session_start_of,
    state_after_disconnect, state_after_handshake, status_of, ConnectStep, DisconnectStep, Session,
    DISCORD_APP_ID,
};
use crate::message::{surfaced, Message, PresenceError};
use crate::payload::{
    buttons_for, join_button, join_url_for, orbis_button, payload_for, PartyView,
};
use crate::text::{
    has_prefix, is_whitespace, lemma_trimmed_empty_iff_blank, lemma_trimmed_fixes_unpadded,
    lemma_trimmed_is_the_core, trimmed,
};
use vstd::prelude::*;
use vstd::string::*;

verus! {

/// Every tag of the table gets the table's headline, whatever the custom
/// activity; every tag outside it, but `custom`, gets the default.
pub proof fn lemma_headline_table(custom: Option<Seq<char>>)
    ensures
        details_for("exploring"@, custom) == "Exploring the Alterverse"@,
        details_for("building"@, custom) == "Building in Creative Mode"@,
        details_for("pvp"@, custom) == "Fighting in PvP Arena"@,
        details_for("dungeon"@, custom) == "Raiding a Dungeon"@,
        details_for("taming"@, custom) == "Taming Creatures"@,
        details_for("crafting"@, custom) == "Crafting Items"@,
        details_for("adventure"@, custom) == "Adventuring with Friends"@,
        forall|tag: Seq<char>|
            !tag_table().contains_key(tag) ==> #[trigger] details_for(tag, custom)
                == "Playing Hytale"@,
{
    lemma_tag_table_rows();
}

/// The tag `custom` shows the custom activity when there is a non-empty one, and
/// the default headline otherwise.
pub proof fn lemma_custom_headline(custom: Option<Seq<char>>)
    ensures
        custom matches Some(text) ==> (text.len() > 0 ==> details_for("custom"@, custom) == text),
        custom is None || custom == Some(Seq::<char>::empty()) ==> details_for("custom"@, custom)
            == "Playing Hytale"@,
{
    lemma_tag_table_rows();
}

/// Off a server neither a status line nor a party is shown, whatever the request
/// says of the server's name and of the party.
pub proof fn lemma_off_server_hides_state_and_party(
    config: ActivityConfigView,
    session_start: Option<i64>,
    party_id: Seq<char>,
)
    requires
        !config.on_server,
    ensures
        payload_for(config, session_start, party_id).state is None,
        payload_for(config, session_start, party_id).party is None,
{
}

/// On a server the party is always shown, with the given identifier and the
/// request's sizes; the status line is shown exactly when the server has a name
/// that is not empty.
pub proof fn lemma_on_server_shows_party(
    config: ActivityConfigView,
    session_start: Option<i64>,
    party_id: Seq<char>,
)
    requires
        config.on_server,
    ensures
        payload_for(config, session_start, party_id).party == Some(
            PartyView { id: party_id, size: config.party_size, max: config.party_max },
        ),
        payload_for(config, session_start, party_id).state is Some <==> (config.server_name matches Some(
            name,
        ) && name.len() > 0),
        config.server_name == Some(Seq::<char>::empty()) ==> payload_for(
            config,
            session_start,
            party_id,
        ).state is None,
        config.server_name matches Some(name) ==> (name.len() > 0 ==> payload_for(
            config,
            session_start,
            party_id,
        ).state == Some("Playing on "@ + name)),
{
}

/// The elapsed-time display starts at the session's start when the request asks
/// for it, and is absent when it does not, even during a session.
pub proof fn lemma_timestamp_follows_show_elapsed(
    config: ActivityConfigView,
    session_start: Option<i64>,
    party_id: Seq<char>,
)
    ensures
        !config.show_elapsed ==> payload_for(config, session_start, party_id).timestamp is None,
        config.show_elapsed ==> payload_for(config, session_start, party_id).timestamp
            == session_start,
{
}

/// The small image is the request's tag as it came, and its text is the headline.
pub proof fn lemma_small_asset_mirrors_request(
    config: ActivityConfigView,
    session_start: Option<i64>,
    party_id: Seq<char>,
)
    ensures
        payload_for(config, session_start, party_id).assets.small_image == config.activity_type,
        payload_for(config, session_start, party_id).assets.small_text == payload_for(
            config,
            session_start,
            party_id,
        ).details,
{
}

/// There is no join button exactly when the address is absent or blank.
pub proof fn lemma_join_url_absent_iff_blank(raw: Option<Seq<char>>)
    ensures
        join_url_for(raw) is None <==> (raw matches Some(text) ==> forall|i: int|
            0 <= i < text.len() ==> is_whitespace(#[trigger] text[i])),
{
    if let Some(text) = raw {
        lemma_trimmed_empty_iff_blank(text);
    }
}

/// A join address always begins with `http://` or `https://`. One that came
/// with either is the trimmed request; any other is the trimmed request behind
/// `https://`.
pub proof fn lemma_join_url_has_scheme(text: Seq<char>)
    requires
        trimmed(text).len() > 0,
    ensures
        join_url_for(Some(text)) matches Some(url) && (has_prefix(url, "http://"@) || has_prefix(
            url,
            "https://"@,
        )),
        has_prefix(trimmed(text), "http://"@) || has_prefix(trimmed(text), "https://"@)
            ==> join_url_for(Some(text)) == Some(trimmed(text)),
        !has_prefix(trimmed(text), "http://"@) && !has_prefix(trimmed(text), "https://"@)
            ==> join_url_for(Some(text)) == Some("https://"@ + trimmed(text)),
{
    let address = trimmed(text);
    if !has_prefix(address, "http://"@) && !has_prefix(address, "https://"@) {
        let url = "https://"@ + address;
        assert(url.subrange(0, "https://"@.len() as int) == "https://"@);
    }
}

/// An address that came without padding is kept as it is when it names its
/// scheme, and only gets `https://` in front when it does not.
pub proof fn lemma_join_url_of_unpadded_address(text: Seq<char>)
    requires
        text.len() > 0,
        !is_whitespace(text.first()),
        !is_whitespace(text.last()),
    ensures
        has_prefix(text, "http://"@) || has_prefix(text, "https://"@) ==> join_url_for(Some(text))
            == Some(text),
        !has_prefix(text, "http://"@) && !has_prefix(text, "https://"@) ==> join_url_for(
            Some(text),
        ) == Some("https://"@ + text),
{
    lemma_trimmed_fixes_unpadded(text);
}

/// A join address neither begins nor ends with whitespace.
pub proof fn lemma_join_url_has_no_padding(raw: Option<Seq<char>>)
    ensures
        join_url_for(raw) matches Some(url) ==> url.len() > 0 && !is_whitespace(url.first())
            && !is_whitespace(url.last()),
{
    if let Some(text) = raw {
        let address = trimmed(text);
        lemma_trimmed_is_the_core(text);
        if address.len() > 0 && !has_prefix(address, "http://"@) && !has_prefix(
            address,
            "https://"@,
        ) {
            reveal_strlit("https://");
            let url = "https://"@ + address;
            assert(url.first() == 'h');
            assert(url.last() == address.last());
        }
    }
}

/// At most two buttons are shown: the join button first, if there is an address,
/// and the directory button last, if asked for.
pub proof fn lemma_buttons_in_order(join_server_url: Option<Seq<char>>, show_orbis_button: bool)
    ensures
        buttons_for(join_server_url, show_orbis_button).len() == (if join_url_for(
            join_server_url,
        ) is Some {
            1int
        } else {
            0int
        }) + (if show_orbis_button {
            1int
        } else {
            0int
        }),
        buttons_for(join_server_url, show_orbis_button).len() <= 2,
        join_url_for(join_server_url) matches Some(url) ==> buttons_for(
            join_server_url,
            show_orbis_button,
        )[0] == join_button(url),
        show_orbis_button ==> buttons_for(join_server_url, show_orbis_button).last()
            == orbis_button(),
{
}

/// A session start is recorded exactly when a handle is held.
pub proof fn lemma_start_iff_handle<H>(state: Option<Session<H>>)
    ensures
        session_start_of(state) is Some <==> handle_of(state) is Some,
        status_of(state) <==> handle_of(state) is Some,
{
}

/// A connect without a connection asks for a handshake, by a client created with
/// the fixed application identifier; a connect during a connection asks for none.
pub proof fn lemma_connect_asks_for_handshake_once<H>(state: Option<Session<H>>)
    ensures
        state is None ==> connect_step(state) == (ConnectStep::Handshake {
            application_id: DISCORD_APP_ID,
        }),
        state is Some ==> connect_step(state) == ConnectStep::Reply(
            Ok(Message::AlreadyConnected),
        ),
{
}

/// After a connect that succeeded, a second connect asks for no handshake and
/// succeeds with "Already connected"; should a handshake result arrive all the
/// same, the state keeps the one session it has.
pub proof fn lemma_second_connect_changes_nothing<H>(
    state: Option<Session<H>>,
    first: Result<Session<H>, String>,
    second: Result<Session<H>, String>,
)
    requires
        reply_after_handshake(state, first) is Ok,
    ensures
        state_after_handshake(state, first) is Some,
        connect_step(state_after_handshake(state, first)) == ConnectStep::Reply(
            Ok(Message::AlreadyConnected),
        ),
        reply_after_handshake(state_after_handshake(state, first), second) == Ok::<
            Message,
            PresenceError,
        >(Message::AlreadyConnected),
        state_after_handshake(state_after_handshake(state, first), second)
            == state_after_handshake(state, first),
        surfaced(Ok(Message::AlreadyConnected)) == Ok::<Seq<char>, Seq<char>>(
            "Already connected"@,
        ),
{
}

/// A handshake that failed leaves the state as it was: nothing partial is stored.
pub proof fn lemma_failed_handshake_changes_nothing<H>(state: Option<Session<H>>, cause: String)
    ensures
        state_after_handshake(state, Err(cause)) == state,
        state is None ==> reply_after_handshake(state, Err(cause)) == Err::<
            Message,
            PresenceError,
        >(PresenceError::Connect(cause)),
{
}

/// A disconnect without a connection asks for nothing to be closed and succeeds
/// with "Not connected".
pub proof fn lemma_disconnect_when_disconnected<H>()
    ensures
        disconnect_step::<H>(None) == DisconnectStep::<H>::Reply(Ok(Message::NotConnected)),
        state_after_disconnect::<H>(None) == None::<Session<H>>,
        surfaced(Ok(Message::NotConnected)) == Ok::<Seq<char>, Seq<char>>("Not connected"@),
{
}

/// The status is true right after a connect that succeeded, and false right
/// after a disconnect, whether or not the close succeeds.
pub proof fn lemma_status_follows_operations<H>(
    state: Option<Session<H>>,
    handshake: Result<Session<H>, String>,
)
    ensures
        reply_after_handshake(state, handshake) is Ok ==> status_of(
            state_after_handshake(state, handshake),
        ),
        reply_after_handshake(state, handshake) is Err ==> !status_of(
            state_after_handshake(state, handshake),
        ),
        !status_of(state_after_disconnect(state)),
{
}

} // verus!
