//! Amplifiers as discovery describes them.

use vstd::prelude::*;
use vstd::string::*;

use crate::amplifier_manager::AmplifierManagerAction;
use crate::discovery::{
    counted_up, harvest_text, sighting_of, DeviceDescription, Scan, Sighting,
};
use crate::messaging::SerializableLevel;
use crate::text::{decimal_string, joined};

verus! {

/// The only manufacturer whose amplifiers are handled.
pub const SUPPORTED_MANUFACTURER: &'static str = "Hegel";

/// An amplifier found on the network. Its UDN tells it from every other device.
#[derive(Clone, Debug, PartialEq, Eq)]
pub struct AmplifierDevice {
    pub friendly_name: String,
    pub manufacturer: String,
    pub model: String,
    pub model_number: Option<String>,
    pub serial_number: Option<String>,
    pub url: String,
    pub udn: String,
}

impl AmplifierDevice {
    /// The amplifier that `description` describes.
    pub fn from_description(description: DeviceDescription) -> (device: AmplifierDevice)
        ensures
            device.friendly_name == description.friendly_name,
            device.manufacturer == description.manufacturer,
            device.model == description.model_name,
            device.model_number == description.model_number,
            device.serial_number == description.serial_number,
            device.url == description.url,
            device.udn == description.udn,
    {
        AmplifierDevice {
            friendly_name: description.friendly_name,
            manufacturer: description.manufacturer,
            model: description.model_name,
            model_number: description.model_number,
            serial_number: description.serial_number,
            url: description.url,
            udn: description.udn,
        }
    }

    /// A copy of this device.
    pub fn duplicate(&self) -> (device: AmplifierDevice)
        ensures
            device == *self,
    {
        AmplifierDevice {
            friendly_name: self.friendly_name.clone(),
            manufacturer: self.manufacturer.clone(),
            model: self.model.clone(),
            model_number: crate::text::duplicate_text(&self.model_number),
            serial_number: crate::text::duplicate_text(&self.serial_number),
            url: self.url.clone(),
            udn: self.udn.clone(),
        }
    }

    /// How the device is named in the log: its name, its model and its UDN.
    pub open spec fn label_text(self) -> Seq<char> {
        crate::discovery::device_label(self.friendly_name@, self.model@, self.udn@)
    }

    /// How the device is named in the log.
    pub fn label(&self) -> (text: String)
        ensures
            text@ == self.label_text(),
    {
        crate::discovery::label(
            self.friendly_name.as_str(),
            self.model.as_str(),
            self.udn.as_str(),
        )
    }
}

// ================================================================================================
// A discovery of amplifiers
// ================================================================================================

/// What a discovery asks its driver to do.
#[derive(Clone, Debug, PartialEq, Eq)]
pub enum DiscoveryEffect {
    /// Write an entry to the application log.
    Log(SerializableLevel, String),
    /// Put this action into the manager's inbox. Where that fails, the effects that follow
    /// in the same list are dropped.
    Tell(AmplifierManagerAction),
}

/// An effect as mathematics sees it.
pub enum DiscoveryEffectView {
    Log(SerializableLevel, Seq<char>),
    Tell(AmplifierManagerAction),
}

impl View for DiscoveryEffect {
    type V = DiscoveryEffectView;

    open spec fn view(&self) -> DiscoveryEffectView {
        match *self {
            DiscoveryEffect::Log(level, message) => DiscoveryEffectView::Log(level, message@),
            DiscoveryEffect::Tell(action) => DiscoveryEffectView::Tell(action),
        }
    }
}

/// A list of effects as mathematics sees it.
pub open spec fn effect_views(effects: Seq<DiscoveryEffect>) -> Seq<DiscoveryEffectView> {
    Seq::new(effects.len(), |i: int| effects[i]@)
}

/// Adds one effect behind the others.
fn push_effect(effects: &mut Vec<DiscoveryEffect>, effect: DiscoveryEffect)
    ensures
        effect_views(final(effects)@) == effect_views(old(effects)@).push(effect@),
{
    effects.push(effect);
    assert(effect_views(effects@) =~= effect_views(old(effects)@).push(effect@));
}

/// No effects.
fn no_effects() -> (effects: Vec<DiscoveryEffect>)
    ensures
        effect_views(effects@) == Seq::<DiscoveryEffectView>::empty(),
{
    let effects: Vec<DiscoveryEffect> = Vec::new();
    assert(effect_views(effects@) =~= Seq::<DiscoveryEffectView>::empty());
    effects
}

/// The amplifier that `description` describes.
pub open spec fn device_of(description: DeviceDescription) -> AmplifierDevice {
    AmplifierDevice {
        friendly_name: description.friendly_name,
        manufacturer: description.manufacturer,
        model: description.model_name,
        model_number: description.model_number,
        serial_number: description.serial_number,
        url: description.url,
        udn: description.udn,
    }
}

/// One discovery of amplifiers: a scan of the network.
pub struct AmplifierDiscovery {
    pub scan: Scan,
}

impl AmplifierDiscovery {
    /// A discovery to which nothing has answered.
    pub fn new() -> (discovery: AmplifierDiscovery)
        ensures
            discovery.scan.seen_udns@ == Set::<Seq<char>>::empty(),
            discovery.scan.found_count == 0,
    {
        AmplifierDiscovery { scan: Scan::new() }
    }

    /// What the beginning of the discovery asks for.
    pub fn begin(&self) -> (effects: Vec<DiscoveryEffect>)
        ensures
            effect_views(effects@) == seq![
                DiscoveryEffectView::Log(
                    SerializableLevel::Info,
                    "Performing amplifier UPnP discovery (MediaRenderer only)"@,
                ),
            ],
    {
        let mut effects = no_effects();
        push_effect(
            &mut effects,
            DiscoveryEffect::Log(
                SerializableLevel::Info,
                String::from_str("Performing amplifier UPnP discovery (MediaRenderer only)"),
            ),
        );
        effects
    }

    /// What an answer asks for: nothing where its UDN has answered before; the device is
    /// handed to the manager where it is made by the supported manufacturer; and a log
    /// entry where it is not.
    pub open spec fn device_effects(self, description: DeviceDescription) -> Seq<
        DiscoveryEffectView,
    > {
        match sighting_of(
            self.scan.seen_udns@,
            description.udn@,
            description.manufacturer@,
            SUPPORTED_MANUFACTURER@,
        ) {
            Sighting::Seen => Seq::empty(),
            Sighting::Wanted => seq![
                DiscoveryEffectView::Log(
                    SerializableLevel::Info,
                    "Amplifier device discovered: "@ + device_of(description).label_text()
                        + " @ "@ + description.url@,
                ),
                DiscoveryEffectView::Tell(
                    AmplifierManagerAction::ProcessDiscoveredDevice(device_of(description)),
                ),
            ],
            Sighting::Foreign => seq![
                DiscoveryEffectView::Log(
                    SerializableLevel::Info,
                    "Amplifier UPnP discovery is ignoring MediaRenderer device '"@
                        + description.friendly_name@ + "' ("@ + description.model_name@
                        + ") from "@ + description.manufacturer@,
                ),
            ],
        }
    }

    /// Takes in a device that has answered the search.
    pub fn on_device(&mut self, description: DeviceDescription) -> (effects: Vec<DiscoveryEffect>)
        ensures
            effect_views(effects@) == old(self).device_effects(description),
            final(self).scan.seen_udns@ == old(self).scan.seen_udns@.insert(description.udn@),
            final(self).scan.found_count == if sighting_of(
                old(self).scan.seen_udns@,
                description.udn@,
                description.manufacturer@,
                SUPPORTED_MANUFACTURER@,
            ) is Wanted {
                counted_up(old(self).scan.found_count)
            } else {
                old(self).scan.found_count
            },
    {
        let mut effects = no_effects();
        let sighting = self.scan.observe(
            description.udn.as_str(),
            description.manufacturer.as_str(),
            SUPPORTED_MANUFACTURER,
        );
        match sighting {
            Sighting::Seen => {},
            Sighting::Wanted => {
                let url = description.url.clone();
                let device = AmplifierDevice::from_description(description);
                push_effect(
                    &mut effects,
                    DiscoveryEffect::Log(
                        SerializableLevel::Info,
                        String::from_str("Amplifier device discovered: ").concat(
                            device.label().as_str(),
                        ).concat(" @ ").concat(url.as_str()),
                    ),
                );
                push_effect(
                    &mut effects,
                    DiscoveryEffect::Tell(AmplifierManagerAction::ProcessDiscoveredDevice(device)),
                );
            },
            Sighting::Foreign => {
                push_effect(
                    &mut effects,
                    DiscoveryEffect::Log(
                        SerializableLevel::Info,
                        String::from_str(
                            "Amplifier UPnP discovery is ignoring MediaRenderer device '",
                        ).concat(description.friendly_name.as_str()).concat("' (").concat(
                            description.model_name.as_str(),
                        ).concat(") from ").concat(description.manufacturer.as_str()),
                    ),
                );
            },
        }
        assert(effect_views(effects@) =~= old(self).device_effects(description));
        effects
    }

    /// Takes in that the search could not be made, with the transport's reason.
    pub fn on_search_failed(&self, detail: &str) -> (effects: Vec<DiscoveryEffect>)
        ensures
            effect_views(effects@) == seq![
                DiscoveryEffectView::Log(
                    SerializableLevel::Error,
                    "Amplifier UPnP discovery error: "@ + detail@,
                ),
            ],
    {
        let mut effects = no_effects();
        push_effect(
            &mut effects,
            DiscoveryEffect::Log(
                SerializableLevel::Error,
                joined("Amplifier UPnP discovery error: ", detail),
            ),
        );
        effects
    }

    /// Ends the discovery: the harvest is logged and the manager is told that the
    /// discovery is over.
    pub fn finish(&self) -> (effects: Vec<DiscoveryEffect>)
        ensures
            effect_views(effects@) == seq![
                DiscoveryEffectView::Log(
                    SerializableLevel::Info,
                    harvest_text(
                        "Amplifier UPnP discovery found "@,
                        self.scan.found_count,
                        " amplifier"@,
                    ),
                ),
                DiscoveryEffectView::Tell(AmplifierManagerAction::SetIsDiscovering(false)),
            ],
    {
        let mut effects = no_effects();
        let plural: &str = if self.scan.found_count > 1 {
            "s"
        } else {
            ""
        };
        push_effect(
            &mut effects,
            DiscoveryEffect::Log(
                SerializableLevel::Info,
                String::from_str("Amplifier UPnP discovery found ").concat(
                    decimal_string(self.scan.found_count as i128).as_str(),
                ).concat(" amplifier").concat(plural),
            ),
        );
        push_effect(
            &mut effects,
            DiscoveryEffect::Tell(AmplifierManagerAction::SetIsDiscovering(false)),
        );
        effects
    }

    /// Gives the discovery up because the stream of answers broke, with the transport's
    /// reason: the manager is told that the discovery is over.
    pub fn abort(&self, detail: &str) -> (effects: Vec<DiscoveryEffect>)
        ensures
            effect_views(effects@) == seq![
                DiscoveryEffectView::Log(
                    SerializableLevel::Error,
                    "Amplifier discovery failed with error: "@ + detail@,
                ),
                DiscoveryEffectView::Tell(AmplifierManagerAction::SetIsDiscovering(false)),
            ],
    {
        let mut effects = no_effects();
        push_effect(
            &mut effects,
            DiscoveryEffect::Log(
                SerializableLevel::Error,
                joined("Amplifier discovery failed with error: ", detail),
            ),
        );
        push_effect(
            &mut effects,
            DiscoveryEffect::Tell(AmplifierManagerAction::SetIsDiscovering(false)),
        );
        effects
    }
}

} // verus!
