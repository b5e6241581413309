//! The builder of outputs: it knows the host and picks devices and
//! configurations.

use crate::output::audio_output::{ring_fits, ring_size_for, AudioOutput};
use crate::output::backend::{share_events, AudioBackend, Device, Host, OutputEvents};
use crate::output::config::{
    closest, closest_config, default_answers, default_matches, name_matches, trimmed,
};
use crate::output::types::{
    AudioOutputError, DeviceNameError, DevicesError, OutputSettings, RequestedOutputConfig,
    SupportedStreamConfig, SupportedStreamConfigRange,
};
use std::sync::Arc;
use vstd::prelude::*;

verus! {

/// Whether the default device has changed in a way that concerns the owner:
/// its name is another than the one last seen, and no device is pinned by
/// name.
pub open spec fn default_changed(pinned: Option<String>, seen: Seq<char>, now: Seq<char>) -> bool {
    pinned is None && seen != now
}

/// Decides whether the owner is told that the default device has changed,
/// from the name it was last seen with and the name it has now.
pub fn default_device_changed(pinned: &Option<String>, seen: &String, now: &String) -> (b: bool)
    ensures
        b == default_changed(*pinned, seen@, now@),
{
    pinned.is_none() && !(*seen == *now)
}

/// Whether the answer of a device to the question for its name is the name
/// asked for, whitespace at either end of both left aside.
pub open spec fn name_hit(name: Result<String, DeviceNameError>, wanted: Seq<char>) -> bool {
    match name {
        Ok(name) => trimmed(name@) == trimmed(wanted),
        Err(_) => false,
    }
}

/// Whether a device answers the question for its name with the name asked
/// for.
pub open spec fn goes_by<D: Device>(device: D, wanted: Seq<char>) -> bool {
    exists|name: Result<String, DeviceNameError>| #[trigger]
        call_ensures(D::name, (&device,), name) && name_hit(name, wanted)
}

/// Whether a device answers the question for its name with another name
/// than the one asked for, or with none.
pub open spec fn passed_over<D: Device>(device: D, wanted: Seq<char>) -> bool {
    exists|name: Result<String, DeviceNameError>| #[trigger]
        call_ensures(D::name, (&device,), name) && !name_hit(name, wanted)
}

/// Whether `device` is the pick among the devices for a name: the first
/// that goes by the name, all before it having been asked and passed over;
/// or the fallback, where all were passed over.
pub open spec fn picked<D: Device>(
    devices: Seq<D>,
    wanted: Seq<char>,
    fallback: D,
    device: D,
) -> bool {
    ||| exists|i: int|
        0 <= i < devices.len() && device == devices[i] && #[trigger] goes_by(devices[i], wanted)
            && forall|j: int| 0 <= j < i ==> #[trigger] passed_over(devices[j], wanted)
    ||| device == fallback && forall|j: int|
        0 <= j < devices.len() ==> #[trigger] passed_over(devices[j], wanted)
}

/// Whether `r` is how the choice of a device on a host ends, given what the
/// host and its devices answer: without a default device there is no
/// choice; with a name, the devices are listed and the pick among them is
/// made, the default device being the fallback; without a name, the default
/// device is the choice.
pub open spec fn chosen<H: Host>(
    host: H,
    wanted: Option<Seq<char>>,
    r: Result<H::Device, AudioOutputError>,
) -> bool {
    match r {
        Ok(device) => exists|fallback: H::Device| #[trigger]
            call_ensures(H::default_output_device, (&host,), Some(fallback)) && match wanted {
                None => device == fallback,
                Some(name) => exists|devices: Vec<H::Device>| #[trigger]
                    call_ensures(H::output_devices, (&host,), Ok(devices)) && picked(
                        devices@,
                        name,
                        fallback,
                        device,
                    ),
            },
        Err(AudioOutputError::NoDefaultDevice) => call_ensures(
            H::default_output_device,
            (&host,),
            None,
        ),
        Err(AudioOutputError::LoadDevicesError(error)) => {
            &&& wanted is Some
            &&& exists|fallback: H::Device| #[trigger]
                call_ensures(H::default_output_device, (&host,), Some(fallback))
            &&& call_ensures(H::output_devices, (&host,), Err(error))
        },
        Err(_) => false,
    }
}

/// Whether `r` is how the question for the default configuration of a
/// host's default device ends, given what the host and the device answer.
pub open spec fn default_config_of<H: Host>(
    host: H,
    r: Result<SupportedStreamConfig, AudioOutputError>,
) -> bool {
    match r {
        Ok(config) => exists|device: H::Device|
            call_ensures(H::default_output_device, (&host,), Some(device))
                && #[trigger] call_ensures(
                <H::Device as Device>::default_output_config,
                (&device,),
                Ok(config),
            ),
        Err(AudioOutputError::NoDefaultDevice) => call_ensures(
            H::default_output_device,
            (&host,),
            None,
        ),
        Err(AudioOutputError::OutputDeviceConfigError(error)) => exists|device: H::Device|
            call_ensures(H::default_output_device, (&host,), Some(device))
                && #[trigger] call_ensures(
                <H::Device as Device>::default_output_config,
                (&device,),
                Err(error),
            ),
        Err(_) => false,
    }
}

/// Whether `r` is how the search for the configuration of a device that
/// comes closest to a request ends, given what the device answers: its
/// default configuration where that answers the request; else the closest
/// among the default and the supported ranges; an error where the device
/// refuses an answer that is needed.
pub open spec fn config_of_device<D: Device>(
    device: D,
    request: RequestedOutputConfig,
    r: Result<SupportedStreamConfig, AudioOutputError>,
) -> bool {
    match r {
        Ok(config) => exists|default_config: SupportedStreamConfig| #[trigger]
            call_ensures(D::default_output_config, (&device,), Ok(default_config))
                && if default_answers(request, default_config) {
                config == default_config
            } else {
                exists|ranges: Vec<SupportedStreamConfigRange>| #[trigger]
                    call_ensures(D::supported_output_configs, (&device,), Ok(ranges)) && config
                        == closest(request, default_config, ranges@)
            },
        Err(AudioOutputError::OutputDeviceConfigError(error)) => call_ensures(
            D::default_output_config,
            (&device,),
            Err(error),
        ),
        Err(AudioOutputError::LoadConfigsError(error)) => exists|
            default_config: SupportedStreamConfig,
        | #[trigger]
            call_ensures(D::default_output_config, (&device,), Ok(default_config))
                && !default_answers(request, default_config) && call_ensures(
                D::supported_output_configs,
                (&device,),
                Err(error),
            ),
        Err(_) => false,
    }
}

/// Whether `r` is how the search for the closest configuration on a host
/// ends: the choice of the device fails, or the chosen device is searched.
pub open spec fn closest_of<H: Host>(
    host: H,
    wanted: Option<Seq<char>>,
    request: RequestedOutputConfig,
    r: Result<SupportedStreamConfig, AudioOutputError>,
) -> bool {
    ||| exists|device: H::Device| #[trigger]
        chosen(host, wanted, Ok::<H::Device, AudioOutputError>(device)) && config_of_device(
            device,
            request,
            r,
        )
    ||| r matches Err(error) && chosen(host, wanted, Err::<H::Device, AudioOutputError>(error))
}

/// Whether `now` is the name of the default device of a host, as the host
/// and the device answer; the empty name stands for no device and for no
/// name.
pub open spec fn default_name_of<H: Host>(host: H, now: Seq<char>) -> bool {
    ||| call_ensures(H::default_output_device, (&host,), None) && now.len() == 0
    ||| exists|device: H::Device, name: Result<String, DeviceNameError>|
        call_ensures(H::default_output_device, (&host,), Some(device)) && #[trigger] call_ensures(
            <H::Device as Device>::name,
            (&device,),
            name,
        ) && now == match name {
            Ok(name) => name@,
            Err(_) => Seq::<char>::empty(),
        }
}

/// The name that is asked for, as a sequence of characters.
pub open spec fn wanted_name(device_name: Option<String>) -> Option<Seq<char>> {
    match device_name {
        Some(name) => Some(name@),
        None => None,
    }
}

/// The builder of the outputs of one host.
pub struct OutputBuilder<B: AudioBackend> {
    host: B::Host,
    events: Arc<Box<dyn OutputEvents>>,
    current_device: Option<String>,
    settings: OutputSettings,
}

impl<B: AudioBackend> OutputBuilder<B> {
    /// The name of the device that the last output was asked on; `None`
    /// while outputs go to the default device.
    pub closed spec fn pinned_device(&self) -> Option<String> {
        self.current_device
    }

    /// The host.
    pub closed spec fn host(&self) -> B::Host {
        self.host
    }

    /// How the outputs to come behave.
    pub closed spec fn settings_spec(&self) -> OutputSettings {
        self.settings
    }

    /// Whether two builders differ in nothing but the settings and the
    /// pinned device.
    pub closed spec fn same_host(&self, other: &Self) -> bool {
        self.host == other.host && self.events == other.events
    }

    /// A builder on the default host of a backend.
    pub fn new(
        backend: B,
        settings: OutputSettings,
        events: Arc<Box<dyn OutputEvents>>,
    ) -> (builder: Self)
        ensures
            builder.settings_spec() == settings,
            builder.pinned_device() is None,
            call_ensures(B::default_host, (&backend,), builder.host()),
    {
        Self::new_from_host(backend.default_host(), settings, events)
    }

    /// A builder on a host.
    pub fn new_from_host(
        host: B::Host,
        settings: OutputSettings,
        events: Arc<Box<dyn OutputEvents>>,
    ) -> (builder: Self)
        ensures
            builder.settings_spec() == settings,
            builder.pinned_device() is None,
            builder.host() == host,
    {
        OutputBuilder { host, events, current_device: None, settings }
    }

    /// The name of the device that the last output was asked on; `None`
    /// while outputs go to the default device.
    pub fn pinned(&self) -> (name: &Option<String>)
        ensures
            *name == self.pinned_device(),
    {
        &self.current_device
    }

    /// How the outputs to come behave.
    pub fn settings(&self) -> (settings: &OutputSettings)
        ensures
            *settings == self.settings_spec(),
    {
        &self.settings
    }

    /// Changes how the outputs to come behave.
    pub fn set_settings(&mut self, settings: OutputSettings)
        ensures
            final(self).settings_spec() == settings,
            final(self).pinned_device() == old(self).pinned_device(),
            final(self).same_host(old(self)),
            final(self).host() == old(self).host(),
    {
        self.settings = settings;
    }

    /// The default configuration of the default device.
    pub fn default_output_config(&self) -> (r: Result<SupportedStreamConfig, AudioOutputError>)
        ensures
            default_config_of(self.host(), r),
    {
        let device = match self.host.default_output_device() {
            Some(device) => device,
            None => {
                return Err(AudioOutputError::NoDefaultDevice);
            },
        };
        match device.default_output_config() {
            Ok(config) => Ok(config),
            Err(error) => Err(AudioOutputError::OutputDeviceConfigError(error)),
        }
    }

    /// The device to use: the first device of the host that goes by the
    /// name, where a name is given and a device goes by it; else the default
    /// device.
    fn select_device(
        &self,
        device_name: &Option<String>,
    ) -> (r: Result<<B::Host as Host>::Device, AudioOutputError>)
        ensures
            chosen(self.host(), wanted_name(*device_name), r),
    {
        let default_device = match self.host.default_output_device() {
            Some(device) => device,
            None => {
                return Err(AudioOutputError::NoDefaultDevice);
            },
        };
        match device_name {
            Some(name) => {
                let mut devices = match self.host.output_devices() {
                    Ok(devices) => devices,
                    Err(error) => {
                        return Err(AudioOutputError::LoadDevicesError(error));
                    },
                };
                let ghost listed = devices;
                let mut i: usize = 0;
                while i < devices.len()
                    invariant
                        i <= devices@.len(),
                        devices == listed,
                        *device_name == Some(*name),
                        call_ensures(
                            <B::Host as Host>::default_output_device,
                            (&self.host(),),
                            Some(default_device),
                        ),
                        call_ensures(
                            <B::Host as Host>::output_devices,
                            (&self.host(),),
                            Ok::<Vec<<B::Host as Host>::Device>, DevicesError>(listed),
                        ),
                        forall|j: int| 0 <= j < i ==> #[trigger] passed_over(devices@[j], name@),
                    decreases devices@.len() - i,
                {
                    let answer = devices[i].name();
                    let found = name_matches(&answer, name.as_str());
                    if found {
                        assert(goes_by(devices@[i as int], name@));
                        let device = devices.swap_remove(i);
                        assert(picked(listed@, name@, default_device, device));
                        return Ok(device);
                    }
                    assert(passed_over(devices@[i as int], name@));
                    i += 1;
                }
                assert(picked(listed@, name@, default_device, default_device));
                Ok(default_device)
            },
            None => Ok(default_device),
        }
    }

    /// The configuration of a device that comes closest to a request.
    ///
    /// The device is the one that goes by the name, or the default device.
    /// Where its default configuration answers the request, that is the
    /// answer; else the first of its supported ranges that offers what is
    /// asked; else its default configuration.
    pub fn find_closest_config(
        &self,
        device_name: Option<&str>,
        config: RequestedOutputConfig,
    ) -> (r: Result<SupportedStreamConfig, AudioOutputError>)
        ensures
            closest_of(
                self.host(),
                match device_name {
                    Some(name) => Some(name@),
                    None => None,
                },
                config,
                r,
            ),
    {
        let wanted: Option<String> = match device_name {
            Some(name) => Some(name.to_owned()),
            None => None,
        };
        let device = match self.select_device(&wanted) {
            Ok(device) => device,
            Err(error) => {
                return Err(error);
            },
        };
        let default_config = match device.default_output_config() {
            Ok(config) => config,
            Err(error) => {
                return Err(AudioOutputError::OutputDeviceConfigError(error));
            },
        };
        if default_matches(&config, &default_config) {
            return Ok(default_config);
        }
        let ranges = match device.supported_output_configs() {
            Ok(ranges) => ranges,
            Err(error) => {
                return Err(AudioOutputError::LoadConfigsError(error));
            },
        };
        Ok(closest_config(&config, default_config, &ranges))
    }

    /// The default device of the host.
    pub fn default_output_device(&self) -> (r: Option<<B::Host as Host>::Device>)
        ensures
            call_ensures(<B::Host as Host>::default_output_device, (&self.host(),), r),
    {
        self.host.default_output_device()
    }

    /// The devices of the host.
    pub fn output_devices(&self) -> (r: Result<Vec<<B::Host as Host>::Device>, DevicesError>)
        ensures
            call_ensures(<B::Host as Host>::output_devices, (&self.host(),), r),
    {
        self.host.output_devices()
    }

    /// Makes an output on the device that goes by the name, or on the
    /// default device, and remembers which was asked for.
    pub fn new_output(
        &mut self,
        device_name: Option<String>,
        config: SupportedStreamConfig,
    ) -> (r: Result<AudioOutput<B>, AudioOutputError>)
        ensures
            final(self).pinned_device() == device_name,
            final(self).settings_spec() == old(self).settings_spec(),
            final(self).same_host(old(self)),
            final(self).host() == old(self).host(),
            r matches Ok(output) ==> {
                &&& output.capacity() == ring_size_for(config)
                &&& output.config() == config
                &&& output.written() == Seq::<i16>::empty()
                &&& output.linked()
                &&& output.settings_spec() == old(self).settings_spec()
                &&& !output.is_running()
                &&& chosen(
                    old(self).host(),
                    wanted_name(device_name),
                    Ok::<<B::Host as Host>::Device, AudioOutputError>(output.device_spec()),
                )
                &&& output.made_on() == output.device_spec()
            },
            r matches Err(error) ==> (error is UnsupportedConfiguration && !ring_fits(config))
                || chosen(
                old(self).host(),
                wanted_name(device_name),
                Err::<<B::Host as Host>::Device, AudioOutputError>(error),
            ),
            r matches Err(error) ==> {
                ||| error is NoDefaultDevice
                ||| error is LoadDevicesError && device_name is Some
                ||| error is UnsupportedConfiguration && !ring_fits(config)
            },
    {
        let device = self.select_device(&device_name);
        self.current_device = device_name;
        let device = match device {
            Ok(device) => device,
            Err(error) => {
                return Err(error);
            },
        };
        AudioOutput::new(device, config, share_events(&self.events), self.settings)
    }

    /// Looks whether the default device is another than the one last seen,
    /// tells the owner where it is, and returns the name to hold against the
    /// next look. While a device is pinned by name the host is not asked and
    /// the name last seen is kept, so that a change made in the meantime is
    /// told once no device is pinned any more. A host without a default
    /// device, and a device without a name, count as the empty name.
    pub fn watch_default_device(&self, seen: String) -> (now: String)
        ensures
            self.pinned_device() is Some ==> now == seen,
            self.pinned_device() is None ==> default_name_of(self.host(), now@),
    {
        if self.current_device.is_some() {
            return seen;
        }
        let now = match self.host.default_output_device() {
            Some(device) => match device.name() {
                Ok(name) => name,
                Err(_) => String::new(),
            },
            None => String::new(),
        };
        if default_device_changed(&self.current_device, &seen, &now) {
            self.events.configuration_changed();
        }
        now
    }
}

} // verus!
