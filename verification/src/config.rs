//! What one extraction needs to know about the hub and the entity it reads.

use vstd::prelude::*;

verus! {

/// Where the hub is, how to authenticate, which entity to read and where in
/// its state the temperature stands.
#[derive(Debug, Clone)]
pub struct HAConfig {
    /// Root of the hub's endpoint, with or without a trailing `/`.
    pub url: String,
    /// Bearer credential sent with every request.
    pub token: String,
    /// Identifier of the entity, such as `sensor.outdoor`.
    pub entity_id: String,
    /// Name of the attribute that holds the temperature; `None` reads the
    /// entity's state itself.
    pub temperature_field: Option<String>,
}

/// Mathematical value of an [`HAConfig`].
pub struct HAConfigView {
    pub url: Seq<char>,
    pub token: Seq<char>,
    pub entity_id: Seq<char>,
    pub temperature_field: Option<Seq<char>>,
}

impl View for HAConfig {
    type V = HAConfigView;

    open spec fn view(&self) -> HAConfigView {
        HAConfigView {
            url: self.url@,
            token: self.token@,
            entity_id: self.entity_id@,
            temperature_field: match self.temperature_field {
                Some(f) => Some(f@),
                None => None,
            },
        }
    }
}

} // verus!
