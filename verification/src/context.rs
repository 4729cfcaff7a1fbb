//! What is told of the graphics adapter that the demo runs on.

use vstd::prelude::*;
use vstd::string::*;

verus! {

/// The graphics API behind an adapter.
#[derive(Debug, Clone, Copy, PartialEq, Eq, Structural)]
pub enum Backend {
    Empty,
    Vulkan,
    Metal,
    Dx12,
    Dx11,
    Gl,
    BrowserWebGpu,
}

/// The kind of device behind an adapter.
#[derive(Debug, Clone, Copy, PartialEq, Eq, Structural)]
pub enum DeviceType {
    Other,
    IntegratedGpu,
    DiscreteGpu,
    VirtualGpu,
    Cpu,
}

/// The name of the vendor with this PCI id.
pub open spec fn vendor_name_of(vendor: usize) -> Seq<char> {
    if vendor == 0x1002 {
        "AMD"@
    } else if vendor == 0x1010 {
        "ImgTec"@
    } else if vendor == 0x10DE {
        "NVIDIA Corporation"@
    } else if vendor == 0x13B5 {
        "ARM"@
    } else if vendor == 0x5143 {
        "Qualcomm"@
    } else if vendor == 0x8086 {
        "INTEL Corporation"@
    } else {
        "Unknown vendor"@
    }
}

/// The name under which a backend is shown.
pub open spec fn backend_name_of(backend: Backend) -> Seq<char> {
    match backend {
        Backend::Empty => "Empty"@,
        Backend::Vulkan => "Vulkan"@,
        Backend::Metal => "Metal"@,
        Backend::Dx12 => "Dx12"@,
        Backend::Dx11 => "Dx11"@,
        Backend::Gl => "GL"@,
        Backend::BrowserWebGpu => "Browser WGPU"@,
    }
}

/// The name under which a kind of device is shown.
pub open spec fn device_type_name_of(device_type: DeviceType) -> Seq<char> {
    match device_type {
        DeviceType::Other => "Other"@,
        DeviceType::IntegratedGpu => "Integrated GPU"@,
        DeviceType::DiscreteGpu => "Discrete GPU"@,
        DeviceType::VirtualGpu => "Virtual GPU"@,
        DeviceType::Cpu => "CPU"@,
    }
}

/// What an adapter says of itself.
#[derive(Debug)]
pub struct AdapterInfo {
    /// Name of the device.
    pub name: String,
    /// PCI id of the vendor.
    pub vendor: usize,
    pub device_type: DeviceType,
    pub backend: Backend,
}

/// What the demo prints of the adapter it runs on.
#[derive(Debug)]
pub struct RendererInfo {
    pub device_name: String,
    pub device_type: String,
    pub vendor_name: String,
    pub backend: String,
    /// Name of the format of the surface.
    pub screen_format: String,
}

impl AdapterInfo {
    /// The name of the adapter's vendor.
    pub fn get_vendor_name(&self) -> (name: &'static str)
        ensures
            name@ == vendor_name_of(self.vendor),
    {
        if self.vendor == 0x1002 {
            "AMD"
        } else if self.vendor == 0x1010 {
            "ImgTec"
        } else if self.vendor == 0x10DE {
            "NVIDIA Corporation"
        } else if self.vendor == 0x13B5 {
            "ARM"
        } else if self.vendor == 0x5143 {
            "Qualcomm"
        } else if self.vendor == 0x8086 {
            "INTEL Corporation"
        } else {
            "Unknown vendor"
        }
    }

    /// The name of the adapter's backend.
    pub fn get_backend(&self) -> (name: &'static str)
        ensures
            name@ == backend_name_of(self.backend),
    {
        match self.backend {
            Backend::Empty => "Empty",
            Backend::Vulkan => "Vulkan",
            Backend::Metal => "Metal",
            Backend::Dx12 => "Dx12",
            Backend::Dx11 => "Dx11",
            Backend::Gl => "GL",
            Backend::BrowserWebGpu => "Browser WGPU",
        }
    }

    /// The name of the adapter's kind of device.
    pub fn get_device_type(&self) -> (name: &'static str)
        ensures
            name@ == device_type_name_of(self.device_type),
    {
        match self.device_type {
            DeviceType::Other => "Other",
            DeviceType::IntegratedGpu => "Integrated GPU",
            DeviceType::DiscreteGpu => "Discrete GPU",
            DeviceType::VirtualGpu => "Virtual GPU",
            DeviceType::Cpu => "CPU",
        }
    }

    /// What is printed of this adapter and of a surface in the format named
    /// `screen_format`.
    pub fn get_info(&self, screen_format: &str) -> (info: RendererInfo)
        ensures
            info.device_name@ == self.name@,
            info.device_type@ == device_type_name_of(self.device_type),
            info.vendor_name@ == vendor_name_of(self.vendor),
            info.backend@ == backend_name_of(self.backend),
            info.screen_format@ == screen_format@,
    {
        RendererInfo {
            device_name: self.name.clone(),
            device_type: self.get_device_type().to_owned(),
            vendor_name: self.get_vendor_name().to_owned(),
            backend: self.get_backend().to_owned(),
            screen_format: screen_format.to_owned(),
        }
    }
}

impl RendererInfo {
    /// The five lines that are printed: vendor, device, kind of device,
    /// backend and format, each behind its label; no line feed ends the last.
    pub open spec fn spec_text(&self) -> Seq<char> {
        "Vendor name: "@ + self.vendor_name@ + "\n"@ + "Device name: "@ + self.device_name@
            + "\n"@ + "Device type: "@ + self.device_type@ + "\n"@ + "Backend: "@
            + self.backend@ + "\n"@ + "Screen format: "@ + self.screen_format@
    }

    /// The five lines that are printed.
    pub fn to_text(&self) -> (text: String)
        ensures
            text@ == self.spec_text(),
    {
        let text = "Vendor name: ".to_owned();
        let text = text.concat(self.vendor_name.as_str());
        let text = text.concat("\n");
        let text = text.concat("Device name: ");
        let text = text.concat(self.device_name.as_str());
        let text = text.concat("\n");
        let text = text.concat("Device type: ");
        let text = text.concat(self.device_type.as_str());
        let text = text.concat("\n");
        let text = text.concat("Backend: ");
        let text = text.concat(self.backend.as_str());
        let text = text.concat("\n");
        let text = text.concat("Screen format: ");
        let text = text.concat(self.screen_format.as_str());
        text
    }
}

} // verus!
