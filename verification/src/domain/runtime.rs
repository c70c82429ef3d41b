//! Runtimes (system images) and device types (profiles) that devices are
//! created from.
use vstd::prelude::*;

verus! {

pub struct DeviceTypeView {
    pub identifier: Seq<char>,
    pub name: Seq<char>,
}

/// A device type or profile, such as `iPhone 15` or `pixel_7`.
#[derive(Debug, Clone)]
pub struct DeviceType {
    /// Unique identifier.
    pub identifier: String,
    /// Human-readable name.
    pub name: String,
}

impl View for DeviceType {
    type V = DeviceTypeView;

    open spec fn view(&self) -> DeviceTypeView {
        DeviceTypeView { identifier: self.identifier@, name: self.name@ }
    }
}

pub open spec fn device_type_views(v: Seq<DeviceType>) -> Seq<DeviceTypeView> {
    v.map_values(|d: DeviceType| d@)
}

impl DeviceType {
    pub fn new(identifier: &str, name: &str) -> (r: Self)
        ensures
            r@ == (DeviceTypeView { identifier: identifier@, name: name@ }),
    {
        DeviceType { identifier: identifier.to_string(), name: name.to_string() }
    }
}

pub struct RuntimeView {
    pub identifier: Seq<char>,
    pub name: Seq<char>,
    pub supported_device_types: Seq<DeviceTypeView>,
}

/// A runtime or system image, such as `iOS 17.0` or
/// `system-images;android-34;google_apis;arm64-v8a`.
#[derive(Debug, Clone)]
pub struct Runtime {
    /// Unique identifier.
    pub identifier: String,
    /// Human-readable name or version.
    pub name: String,
    /// Device types that this runtime supports, where the platform says so.
    pub supported_device_types: Vec<DeviceType>,
}

impl View for Runtime {
    type V = RuntimeView;

    open spec fn view(&self) -> RuntimeView {
        RuntimeView {
            identifier: self.identifier@,
            name: self.name@,
            supported_device_types: device_type_views(self.supported_device_types@),
        }
    }
}

pub open spec fn runtime_views(v: Seq<Runtime>) -> Seq<RuntimeView> {
    v.map_values(|r: Runtime| r@)
}

impl Runtime {
    /// A runtime with no device types.
    pub fn new(identifier: &str, name: &str) -> (r: Self)
        ensures
            r@ == (RuntimeView {
                identifier: identifier@,
                name: name@,
                supported_device_types: Seq::empty(),
            }),
    {
        let r = Runtime {
            identifier: identifier.to_string(),
            name: name.to_string(),
            supported_device_types: Vec::new(),
        };
        assert(device_type_views(r.supported_device_types@) =~= Seq::empty());
        r
    }

    /// The same runtime supporting the given device types.
    pub fn with_device_types(self, types: Vec<DeviceType>) -> (r: Self)
        ensures
            r@ == (RuntimeView { supported_device_types: device_type_views(types@), ..self@ }),
    {
        let mut r = self;
        r.supported_device_types = types;
        r
    }
}

} // verus!
