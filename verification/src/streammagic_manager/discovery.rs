//! Streamers as discovery describes them.

use vstd::prelude::*;
use vstd::string::*;

use crate::discovery::{
    counted_up, harvest_text, sighting_of, DeviceDescription, Scan, Sighting,
};
use crate::messaging::SerializableLevel;
use crate::streammagic_manager::StreamMagicManagerAction;
use crate::text::{decimal_string, duplicate_text, joined};

verus! {

/// The only manufacturer whose streamers are handled.
pub const SUPPORTED_MANUFACTURER: &'static str = "Cambridge Audio";

/// A streamer found on the network. Its UDN tells it from every other device; the two flags
/// say whether a connection to it is being opened and whether one stands.
#[derive(Clone, Debug, PartialEq, Eq)]
pub struct StreamMagicDevice {
    pub friendly_name: String,
    pub model: String,
    pub model_number: Option<String>,
    pub serial_number: Option<String>,
    pub url: String,
    pub udn: String,
    pub is_activating: bool,
    pub is_active: bool,
}

impl StreamMagicDevice {
    /// The streamer that `description` describes, with no connection to it.
    pub fn from_description(description: DeviceDescription) -> (device: StreamMagicDevice)
        ensures
            device.friendly_name == description.friendly_name,
            device.model == description.model_name,
            device.model_number == description.model_number,
            device.serial_number == description.serial_number,
            device.url == description.url,
            device.udn == description.udn,
            !device.is_activating,
            !device.is_active,
    {
        StreamMagicDevice {
            friendly_name: description.friendly_name,
            model: description.model_name,
            model_number: description.model_number,
            serial_number: description.serial_number,
            url: description.url,
            udn: description.udn,
            is_activating: false,
            is_active: false,
        }
    }

    /// A copy of this device.
    pub fn duplicate(&self) -> (device: StreamMagicDevice)
        ensures
            device == *self,
    {
        StreamMagicDevice {
            friendly_name: self.friendly_name.clone(),
            model: self.model.clone(),
            model_number: duplicate_text(&self.model_number),
            serial_number: duplicate_text(&self.serial_number),
            url: self.url.clone(),
            udn: self.udn.clone(),
            is_activating: self.is_activating,
            is_active: self.is_active,
        }
    }

    /// How the device is named in the log: its name, its model and its UDN.
    pub open spec fn label_text(self) -> Seq<char> {
        crate::discovery::device_label(self.friendly_name@, self.model@, self.udn@)
    }

    /// How the device is named in the log.
    pub fn label(&self) -> (text: String)
        ensures
            text@ == self.label_text(),
    {
        crate::discovery::label(
            self.friendly_name.as_str(),
            self.model.as_str(),
            self.udn.as_str(),
        )
    }
}

/// Copies of `devices`, in their order.
pub fn duplicate_devices(devices: &Vec<StreamMagicDevice>) -> (copies: Vec<StreamMagicDevice>)
    ensures
        copies@ == devices@,
{
    let n: usize = devices.len();
    let mut copies: Vec<StreamMagicDevice> = Vec::new();
    let mut i: usize = 0;
    while i < n
        invariant
            n == devices@.len(),
            i <= n,
            copies@ == devices@.subrange(0, i as int),
        decreases n - i,
    {
        copies.push(devices[i].duplicate());
        i = i + 1;
        assert(copies@ =~= devices@.subrange(0, i as int));
    }
    assert(devices@.subrange(0, n as int) =~= devices@);
    copies
}

// ================================================================================================
// A discovery of streamers
// ================================================================================================

/// What a discovery asks its driver to do.
#[derive(Clone, Debug, PartialEq, Eq)]
pub enum DiscoveryEffect {
    /// Write an entry to the application log.
    Log(SerializableLevel, String),
    /// Put this action into the manager's inbox. Where that fails, the effects that follow
    /// in the same list are dropped.
    Tell(StreamMagicManagerAction),
}

/// An effect as mathematics sees it.
pub enum DiscoveryEffectView {
    Log(SerializableLevel, Seq<char>),
    Tell(StreamMagicManagerAction),
}

impl View for DiscoveryEffect {
    type V = DiscoveryEffectView;

    open spec fn view(&self) -> DiscoveryEffectView {
        match *self {
            DiscoveryEffect::Log(level, message) => DiscoveryEffectView::Log(level, message@),
            DiscoveryEffect::Tell(action) => DiscoveryEffectView::Tell(action),
        }
    }
}

/// A list of effects as mathematics sees it.
pub open spec fn effect_views(effects: Seq<DiscoveryEffect>) -> Seq<DiscoveryEffectView> {
    Seq::new(effects.len(), |i: int| effects[i]@)
}

/// Adds one effect behind the others.
fn push_effect(effects: &mut Vec<DiscoveryEffect>, effect: DiscoveryEffect)
    ensures
        effect_views(final(effects)@) == effect_views(old(effects)@).push(effect@),
{
    effects.push(effect);
    assert(effect_views(effects@) =~= effect_views(old(effects)@).push(effect@));
}

/// No effects.
fn no_effects() -> (effects: Vec<DiscoveryEffect>)
    ensures
        effect_views(effects@) == Seq::<DiscoveryEffectView>::empty(),
{
    let effects: Vec<DiscoveryEffect> = Vec::new();
    assert(effect_views(effects@) =~= Seq::<DiscoveryEffectView>::empty());
    effects
}

/// The streamer that `description` describes, with no connection to it.
pub open spec fn device_of(description: DeviceDescription) -> StreamMagicDevice {
    StreamMagicDevice {
        friendly_name: description.friendly_name,
        model: description.model_name,
        model_number: description.model_number,
        serial_number: description.serial_number,
        url: description.url,
        udn: description.udn,
        is_activating: false,
        is_active: false,
    }
}

/// One discovery of streamers: a scan of the network, and whether the streamers that it
/// finds are to be activated.
pub struct StreamerDiscovery {
    pub scan: Scan,
    pub activate_discovered_device: bool,
}

impl StreamerDiscovery {
    /// A discovery to which nothing has answered.
    pub fn new(activate_discovered_device: bool) -> (discovery: StreamerDiscovery)
        ensures
            discovery.scan.seen_udns@ == Set::<Seq<char>>::empty(),
            discovery.scan.found_count == 0,
            discovery.activate_discovered_device == activate_discovered_device,
    {
        StreamerDiscovery { scan: Scan::new(), activate_discovered_device }
    }

    /// What the beginning of the discovery asks for.
    pub fn begin(&self) -> (effects: Vec<DiscoveryEffect>)
        ensures
            effect_views(effects@) == seq![
                DiscoveryEffectView::Log(
                    SerializableLevel::Info,
                    "Performing streamer UPnP discovery (MediaRenderer only)"@,
                ),
            ],
    {
        let mut effects = no_effects();
        push_effect(
            &mut effects,
            DiscoveryEffect::Log(
                SerializableLevel::Info,
                String::from_str("Performing streamer UPnP discovery (MediaRenderer only)"),
            ),
        );
        effects
    }

    /// What an answer asks for: nothing where its UDN has answered before; the device is
    /// handed to the manager, to be activated where the discovery says so, where it is made
    /// by the supported manufacturer; and a log entry where it is not.
    pub open spec fn device_effects(self, description: DeviceDescription) -> Seq<
        DiscoveryEffectView,
    > {
        match sighting_of(
            self.scan.seen_udns@,
            description.udn@,
            description.manufacturer@,
            SUPPORTED_MANUFACTURER@,
        ) {
            Sighting::Seen => Seq::empty(),
            Sighting::Wanted => seq![
                DiscoveryEffectView::Log(
                    SerializableLevel::Info,
                    "StreamMagic device discovered: "@ + device_of(description).label_text()
                        + " @ "@ + description.url@,
                ),
                DiscoveryEffectView::Tell(
                    StreamMagicManagerAction::ProcessDiscoveredDevice(device_of(description)),
                ),
            ] + if self.activate_discovered_device {
                seq![
                    DiscoveryEffectView::Tell(
                        StreamMagicManagerAction::ActivateUdn(description.udn),
                    ),
                ]
            } else {
                Seq::empty()
            },
            Sighting::Foreign => seq![
                DiscoveryEffectView::Log(
                    SerializableLevel::Info,
                    "Streamer UPnP discovery is ignoring MediaRenderer device '"@
                        + description.friendly_name@ + "' ("@ + description.model_name@
                        + ") from "@ + description.manufacturer@,
                ),
            ],
        }
    }

    /// Takes in a device that has answered the search.
    pub fn on_device(&mut self, description: DeviceDescription) -> (effects: Vec<DiscoveryEffect>)
        ensures
            effect_views(effects@) == old(self).device_effects(description),
            final(self).activate_discovered_device == old(self).activate_discovered_device,
            final(self).scan.seen_udns@ == old(self).scan.seen_udns@.insert(description.udn@),
            final(self).scan.found_count == if sighting_of(
                old(self).scan.seen_udns@,
                description.udn@,
                description.manufacturer@,
                SUPPORTED_MANUFACTURER@,
            ) is Wanted {
                counted_up(old(self).scan.found_count)
            } else {
                old(self).scan.found_count
            },
    {
        let mut effects = no_effects();
        let sighting = self.scan.observe(
            description.udn.as_str(),
            description.manufacturer.as_str(),
            SUPPORTED_MANUFACTURER,
        );
        match sighting {
            Sighting::Seen => {},
            Sighting::Wanted => {
                let udn = description.udn.clone();
                let url = description.url.clone();
                let device = StreamMagicDevice::from_description(description);
                push_effect(
                    &mut effects,
                    DiscoveryEffect::Log(
                        SerializableLevel::Info,
                        String::from_str("StreamMagic device discovered: ").concat(
                            device.label().as_str(),
                        ).concat(" @ ").concat(url.as_str()),
                    ),
                );
                push_effect(
                    &mut effects,
                    DiscoveryEffect::Tell(StreamMagicManagerAction::ProcessDiscoveredDevice(device)),
                );
                if self.activate_discovered_device {
                    push_effect(
                        &mut effects,
                        DiscoveryEffect::Tell(StreamMagicManagerAction::ActivateUdn(udn)),
                    );
                }
            },
            Sighting::Foreign => {
                push_effect(
                    &mut effects,
                    DiscoveryEffect::Log(
                        SerializableLevel::Info,
                        String::from_str(
                            "Streamer UPnP discovery is ignoring MediaRenderer device '",
                        ).concat(description.friendly_name.as_str()).concat("' (").concat(
                            description.model_name.as_str(),
                        ).concat(") from ").concat(description.manufacturer.as_str()),
                    ),
                );
            },
        }
        assert(effect_views(effects@) =~= old(self).device_effects(description));
        effects
    }

    /// Takes in that the search could not be made, with the transport's reason.
    pub fn on_search_failed(&self, detail: &str) -> (effects: Vec<DiscoveryEffect>)
        ensures
            effect_views(effects@) == seq![
                DiscoveryEffectView::Log(
                    SerializableLevel::Error,
                    "Streamer UPnP discovery error: "@ + detail@,
                ),
            ],
    {
        let mut effects = no_effects();
        push_effect(
            &mut effects,
            DiscoveryEffect::Log(
                SerializableLevel::Error,
                joined("Streamer UPnP discovery error: ", detail),
            ),
        );
        effects
    }

    /// Ends the discovery: the harvest is logged and the manager is told that the
    /// discovery is over.
    pub fn finish(&self) -> (effects: Vec<DiscoveryEffect>)
        ensures
            effect_views(effects@) == seq![
                DiscoveryEffectView::Log(
                    SerializableLevel::Info,
                    harvest_text(
                        "Streamer UPnP discovery found "@,
                        self.scan.found_count,
                        " streamer"@,
                    ),
                ),
                DiscoveryEffectView::Tell(StreamMagicManagerAction::SetIsDiscovering(false)),
            ],
    {
        let mut effects = no_effects();
        let plural: &str = if self.scan.found_count > 1 {
            "s"
        } else {
            ""
        };
        push_effect(
            &mut effects,
            DiscoveryEffect::Log(
                SerializableLevel::Info,
                String::from_str("Streamer UPnP discovery found ").concat(
                    decimal_string(self.scan.found_count as i128).as_str(),
                ).concat(" streamer").concat(plural),
            ),
        );
        push_effect(
            &mut effects,
            DiscoveryEffect::Tell(StreamMagicManagerAction::SetIsDiscovering(false)),
        );
        effects
    }

    /// Gives the discovery up because the stream of answers broke, with the transport's
    /// reason: the manager is told that the discovery is over.
    pub fn abort(&self, detail: &str) -> (effects: Vec<DiscoveryEffect>)
        ensures
            effect_views(effects@) == seq![
                DiscoveryEffectView::Log(
                    SerializableLevel::Error,
                    "Streamer discovery failed with error: "@ + detail@,
                ),
                DiscoveryEffectView::Tell(StreamMagicManagerAction::SetIsDiscovering(false)),
            ],
    {
        let mut effects = no_effects();
        push_effect(
            &mut effects,
            DiscoveryEffect::Log(
                SerializableLevel::Error,
                joined("Streamer discovery failed with error: ", detail),
            ),
        );
        push_effect(
            &mut effects,
            DiscoveryEffect::Tell(StreamMagicManagerAction::SetIsDiscovering(false)),
        );
        effects
    }
}

} // verus!
