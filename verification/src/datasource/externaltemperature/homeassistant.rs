//! The temperature of an entity of the hub: which text of its state holds
//! it, and what is reported when that text is not there.

use crate::config::{HAConfig, HAConfigView};
use crate::datasource::error::{ErrorKind, HaError, HaErrorView};
use crate::datasource::externaltemperature::{ExternalTemperatureErr, ExternalTemperatureErrView};
use crate::datasource::ha::{ClientView, HomeAssistantClient, Request, State, StateView};
use crate::datasource::header::header_text;
use crate::datasource::json::{json_members, member, text_of};
use crate::text::{lemma_mentions_middle, mentions};
use vstd::prelude::*;

verus! {

/// Read directly: the state's own text, which must be there.
pub open spec fn direct(entity_id: Seq<char>, state: Option<Seq<char>>) -> Result<
    Seq<char>,
    ExternalTemperatureErrView,
> {
    match state {
        Some(text) => Ok(text),
        None => Err(ExternalTemperatureErrView::MissingState { entity_id }),
    }
}

/// Read from the attribute named `field`, of which `member` says what was
/// found: nothing, something that is no string, or a string's text.
pub open spec fn named(field: Seq<char>, member: Option<Option<Seq<char>>>) -> Result<
    Seq<char>,
    ExternalTemperatureErrView,
> {
    match member {
        None => Err(ExternalTemperatureErrView::MissingField { field }),
        Some(None) => Err(ExternalTemperatureErrView::NonStringField { field }),
        Some(Some(text)) => Ok(text),
    }
}

/// What `members` hold under `name`: nothing, something that is no string,
/// or a string's text.
pub open spec fn lookup(members: Map<Seq<char>, Option<Seq<char>>>, name: Seq<char>) -> Option<
    Option<Seq<char>>,
> {
    if members.dom().contains(name) {
        Some(members[name])
    } else {
        None
    }
}

/// The text that holds the temperature. With no field named it is the
/// entity's state; with a field named it is the attribute of that name,
/// which must be a string. Only one of the two is looked at.
pub open spec fn candidate(
    state: StateView,
    entity_id: Seq<char>,
    field: Option<Seq<char>>,
) -> Result<Seq<char>, ExternalTemperatureErrView> {
    match field {
        None => direct(entity_id, state.state),
        Some(name) => match state.attributes {
            None => Err(ExternalTemperatureErrView::MissingAttributes { entity_id }),
            Some(members) => named(name, lookup(members, name)),
        },
    }
}

/// Mathematical value of the outcome of an extraction.
pub open spec fn outcome(r: Result<String, ExternalTemperatureErr>) -> Result<
    Seq<char>,
    ExternalTemperatureErrView,
> {
    match r {
        Ok(text) => Ok(text@),
        Err(e) => Err(e@),
    }
}

/// Mathematical value of what was found under a name.
pub open spec fn member_view(member: Option<Option<&str>>) -> Option<Option<Seq<char>>> {
    match member {
        None => None,
        Some(None) => Some(None),
        Some(Some(text)) => Some(Some(text@)),
    }
}

/// The state's own text, or the failure that names the entity without one.
pub fn state_text(entity_id: &str, state: &Option<String>) -> (r: Result<
    String,
    ExternalTemperatureErr,
>)
    ensures
        outcome(r) == direct(
            entity_id@,
            match *state {
                Some(text) => Some(text@),
                None => None,
            },
        ),
{
    match state {
        Some(text) => Ok(text.clone()),
        None => Err(ExternalTemperatureErr::MissingState { entity_id: String::from_str(entity_id) }),
    }
}

/// The text of the attribute named `field`, of which `member` says what
/// was found; or the failure that names the field which is not there or is
/// no string.
pub fn attribute_text(field: &str, member: Option<Option<&str>>) -> (r: Result<
    String,
    ExternalTemperatureErr,
>)
    ensures
        outcome(r) == named(field@, member_view(member)),
{
    match member {
        None => Err(ExternalTemperatureErr::MissingField { field: String::from_str(field) }),
        Some(None) => Err(
            ExternalTemperatureErr::NonStringField { field: String::from_str(field) },
        ),
        Some(Some(text)) => Ok(String::from_str(text)),
    }
}

/// What `attributes` hold under `name`.
fn find<'a>(attributes: &'a serde_json::Value, name: &str) -> (r: Option<Option<&'a str>>)
    ensures
        member_view(r) == lookup(json_members(*attributes), name@),
{
    match member(attributes, name) {
        None => None,
        Some(value) => Some(text_of(value)),
    }
}

/// Picks the text that holds the temperature out of `state`.
pub fn temperature_candidate(
    state: &State,
    entity_id: &str,
    temperature_field: &Option<String>,
) -> (r: Result<String, ExternalTemperatureErr>)
    ensures
        outcome(r) == candidate(
            state@,
            entity_id@,
            match *temperature_field {
                Some(name) => Some(name@),
                None => None,
            },
        ),
{
    match temperature_field {
        None => state_text(entity_id, &state.state),
        Some(name) => match &state.attributes {
            None => Err(
                ExternalTemperatureErr::MissingAttributes {
                    entity_id: String::from_str(entity_id),
                },
            ),
            Some(attributes) => attribute_text(name.as_str(), find(attributes, name.as_str())),
        },
    }
}

/// What an extraction yields once the fetch has ended: the failure of the
/// fetch with the entity it was for, or the text picked out of the state.
pub open spec fn extraction(
    config: HAConfigView,
    fetched: Result<StateView, HaErrorView>,
) -> Result<Seq<char>, ExternalTemperatureErrView> {
    match fetched {
        Err(cause) => Err(
            ExternalTemperatureErrView::Fetch { entity_id: config.entity_id, cause },
        ),
        Ok(state) => candidate(state, config.entity_id, config.temperature_field),
    }
}

/// Mathematical value of the outcome of a fetch.
pub open spec fn fetched_view(fetched: Result<State, HaError>) -> Result<StateView, HaErrorView> {
    match fetched {
        Ok(state) => Ok(state@),
        Err(e) => Err(e@),
    }
}

/// First part of an extraction: the client for the configured hub, and
/// the request for the state of the configured entity. Fails exactly when
/// the client cannot be made.
pub fn state_request(config: &HAConfig) -> (r: Result<
    (HomeAssistantClient, Request),
    ExternalTemperatureErr,
>)
    ensures
        match r {
            Ok((client, request)) => {
                &&& header_text(config.token@)
                &&& client@ == ClientView::of(config.url@, config.token@)
                &&& request@ == client@.state_request(config.entity_id@)
            },
            Err(e) => {
                &&& !header_text(config.token@)
                &&& e@ == (ExternalTemperatureErrView::Client {
                    cause: HaErrorView::Construction {
                        detail: "token cannot be sent in a header"@,
                    },
                })
            },
        },
{
    match HomeAssistantClient::new(config.url.clone(), config.token.clone()) {
        Err(cause) => Err(ExternalTemperatureErr::Client { cause }),
        Ok(client) => {
            let request: Request = client.get_state(config.entity_id.as_str());
            Ok((client, request))
        },
    }
}

/// Second part of an extraction: from the outcome of the fetch to the text
/// that holds the temperature. A failed fetch is reported with the entity
/// it was for; nothing is read of a state that did not arrive.
pub fn get_ha_temperature(config: &HAConfig, fetched: Result<State, HaError>) -> (r: Result<
    String,
    ExternalTemperatureErr,
>)
    ensures
        outcome(r) == extraction(config@, fetched_view(fetched)),
{
    match fetched {
        Err(cause) => Err(
            ExternalTemperatureErr::Fetch { entity_id: config.entity_id.clone(), cause },
        ),
        Ok(state) => temperature_candidate(
            &state,
            config.entity_id.as_str(),
            &config.temperature_field,
        ),
    }
}

/// Last part of an extraction: the number read from `candidate`, or the
/// failure that names `candidate` and says why it is no number.
pub fn parsed_temperature<T>(candidate: String, parsed: Result<T, String>) -> (r: Result<
    T,
    ExternalTemperatureErr,
>)
    ensures
        match parsed {
            Ok(value) => r == Ok::<T, ExternalTemperatureErr>(value),
            Err(detail) => r matches Err(e) && e@ == (ExternalTemperatureErrView::Parse {
                candidate: candidate@,
                detail: detail@,
            }),
        },
{
    match parsed {
        Ok(value) => Ok(value),
        Err(detail) => Err(ExternalTemperatureErr::Parse { candidate, detail }),
    }
}

/// Read directly, the state's own text is the result, as it stands,
/// whatever the hub, the credential, the entity and the attributes are.
pub proof fn lemma_direct_state_is_candidate(
    config: HAConfigView,
    state: StateView,
    text: Seq<char>,
)
    requires
        config.temperature_field is None,
        state.state == Some(text),
    ensures
        extraction(config, Ok(state)) == Ok::<Seq<char>, ExternalTemperatureErrView>(text),
{
}

/// Read from a named attribute that is a string, that string is the
/// result, as it stands, whatever the state's own text is.
pub proof fn lemma_named_attribute_is_candidate(
    config: HAConfigView,
    state: StateView,
    name: Seq<char>,
    text: Seq<char>,
)
    requires
        config.temperature_field == Some(name),
        state.attributes matches Some(members) && members.dom().contains(name) && members[name]
            == Some(text),
    ensures
        extraction(config, Ok(state)) == Ok::<Seq<char>, ExternalTemperatureErrView>(text),
{
}

/// One source is read and never the other: read directly, two states with
/// the same text give the same result; read from an attribute, two states
/// with the same attributes do.
pub proof fn lemma_one_source(config: HAConfigView, a: StateView, b: StateView)
    ensures
        config.temperature_field is None && a.state == b.state ==> extraction(config, Ok(a))
            == extraction(config, Ok(b)),
        config.temperature_field is Some && a.attributes == b.attributes ==> extraction(
            config,
            Ok(a),
        ) == extraction(config, Ok(b)),
{
}

/// An extraction succeeds exactly when the fetch did and the one source
/// that is read holds a text.
pub proof fn lemma_success(config: HAConfigView, fetched: Result<StateView, HaErrorView>)
    ensures
        extraction(config, fetched) is Ok <==> (fetched matches Ok(state) && match config.temperature_field {
            None => state.state is Some,
            Some(name) => state.attributes matches Some(members) && members.dom().contains(name)
                && members[name] is Some,
        }),
{
}

/// Read directly, a state without a text of its own is a missing state,
/// and the failure's message mentions the entity.
pub proof fn lemma_missing_state(config: HAConfigView, state: StateView)
    requires
        config.temperature_field is None,
        state.state is None,
    ensures
        extraction(config, Ok(state)) matches Err(e) && e == (ExternalTemperatureErrView::MissingState {
            entity_id: config.entity_id,
        }) && e.kind() == ErrorKind::MissingState && mentions(e.message(), config.entity_id),
{
    lemma_mentions_middle("no state value for "@, config.entity_id, Seq::empty());
    assert("no state value for "@ + config.entity_id + Seq::<char>::empty()
        =~= "no state value for "@ + config.entity_id);
}

/// Read from an attribute, a state without attributes is reported as
/// such, and the failure's message mentions the entity.
pub proof fn lemma_missing_attributes(config: HAConfigView, state: StateView)
    requires
        config.temperature_field is Some,
        state.attributes is None,
    ensures
        extraction(config, Ok(state)) matches Err(e) && e == (ExternalTemperatureErrView::MissingAttributes {
            entity_id: config.entity_id,
        }) && e.kind() == ErrorKind::MissingAttributes && mentions(e.message(), config.entity_id),
{
    lemma_mentions_middle("no attributes for "@, config.entity_id, Seq::empty());
    assert("no attributes for "@ + config.entity_id + Seq::<char>::empty()
        =~= "no attributes for "@ + config.entity_id);
}

/// Attributes that do not hold the named member are a missing field, and
/// the failure's message mentions the name.
pub proof fn lemma_missing_field(config: HAConfigView, state: StateView, name: Seq<char>)
    requires
        config.temperature_field == Some(name),
        state.attributes matches Some(members) && !members.dom().contains(name),
    ensures
        extraction(config, Ok(state)) matches Err(e) && e == (ExternalTemperatureErrView::MissingField {
            field: name,
        }) && e.kind() == ErrorKind::MissingField && mentions(e.message(), name),
{
    lemma_mentions_middle("no field "@, name, " in attributes"@);
}

/// A named member that is there and is no string is reported as such,
/// and the failure's message mentions the name.
pub proof fn lemma_non_string_field(config: HAConfigView, state: StateView, name: Seq<char>)
    requires
        config.temperature_field == Some(name),
        state.attributes matches Some(members) && members.dom().contains(name) && members[name] is None,
    ensures
        extraction(config, Ok(state)) matches Err(e) && e == (ExternalTemperatureErrView::NonStringField {
            field: name,
        }) && e.kind() == ErrorKind::NonStringField && mentions(e.message(), name),
{
    lemma_mentions_middle("field "@, name, " is not a string"@);
}

/// A failed fetch ends the extraction: the failure is handed on with its
/// own kind and with the entity, whatever was to be read.
pub proof fn lemma_failed_fetch(config: HAConfigView, cause: HaErrorView)
    ensures
        extraction(config, Err(cause)) matches Err(e) && e == (ExternalTemperatureErrView::Fetch {
            entity_id: config.entity_id,
            cause,
        }) && e.kind() == cause.kind() && mentions(e.message(), config.entity_id),
{
    lemma_mentions_middle(
        "failed to get state for "@,
        config.entity_id,
        ": "@ + cause.message(),
    );
    assert("failed to get state for "@ + config.entity_id + (": "@ + cause.message())
        =~= "failed to get state for "@ + config.entity_id + ": "@ + cause.message());
}

/// The message of a failed parse mentions the text that was no number.
pub proof fn lemma_parse_failure_mentions_text(candidate: Seq<char>, detail: Seq<char>)
    ensures
        mentions(
            (ExternalTemperatureErrView::Parse { candidate, detail }).message(),
            candidate,
        ),
        (ExternalTemperatureErrView::Parse { candidate, detail }).kind() == ErrorKind::Parse,
{
    lemma_mentions_middle("cannot parse temperature '"@, candidate, "': "@ + detail);
    assert("cannot parse temperature '"@ + candidate + ("': "@ + detail)
        =~= "cannot parse temperature '"@ + candidate + "': "@ + detail);
}

} // verus!
