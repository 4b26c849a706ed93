//! Class code of a function and its meaning.

use heterob::endianness::Le;
use heterob::P3;
use vstd::prelude::*;
use vstd::std_specs::convert::FromSpecImpl;

verus! {

/// The three bytes by which a function tells what it is.
#[derive(Clone, Copy, Debug, PartialEq, Eq, Structural)]
pub struct ClassCode {
    /// Specific register-level programming interface (if any) so that device independent software
    /// can interact with the device
    pub interface: u8,
    /// Sub-class code which identifies more specifically the function of the device
    pub sub: u8,
    /// Base class code which broadly classifies the type of function the device performs
    pub base: u8,
}

/// Splits the three bytes of the class code register, lowest address first,
/// with heterob's conversion of `P3<[u8; 3], 1, 1, 1>` into `Le<(u8, u8, u8)>`.
/// The conversion cuts the array into three arrays of one byte each, in
/// order, and reads each as a little endian `u8`, which is the byte itself.
#[verifier::external_body]
fn split_register(bytes: [u8; 3]) -> (parts: (u8, u8, u8))
    ensures
        parts.0 == bytes[0],
        parts.1 == bytes[1],
        parts.2 == bytes[2],
{
    let Le((interface, sub, base)) = P3::<[u8; 3], 1, 1, 1>(bytes).into();
    (interface, sub, base)
}

impl Default for ClassCode {
    fn default() -> (code: Self)
        ensures
            code == (ClassCode { interface: 0, sub: 0, base: 0 }),
    {
        Self { interface: 0, sub: 0, base: 0 }
    }
}

impl From<[u8; 3]> for ClassCode {
    fn from(bytes: [u8; 3]) -> (code: Self) {
        let (interface, sub, base) = split_register(bytes);
        Self { interface, sub, base }
    }
}

impl FromSpecImpl<[u8; 3]> for ClassCode {
    open spec fn obeys_from_spec() -> bool {
        true
    }

    open spec fn from_spec(bytes: [u8; 3]) -> Self {
        ClassCode { interface: bytes[0], sub: bytes[1], base: bytes[2] }
    }
}

/// Name of the base class, which says broadly what the function does.
pub open spec fn class_name(base: u8) -> &'static str {
    match base {
        0x00 => "Unclassified device",
        0x01 => "Mass storage controller",
        0x02 => "Network controller",
        0x03 => "Display controller",
        0x04 => "Multimedia controller",
        0x05 => "Memory controller",
        0x06 => "Bridge",
        0x07 => "Communication controller",
        0x08 => "Generic system peripheral",
        0x09 => "Input device controller",
        0x0A => "Docking station",
        0x0B => "Processor",
        0x0C => "Serial bus controller",
        0x0D => "Wireless controller",
        0x0E => "Intelligent controller",
        0x0F => "Satellite communications controller",
        0x10 => "Encryption controller",
        0x11 => "Signal processing controller",
        0x12 => "Processing accelerators",
        0x13 => "Non-Essential Instrumentation",
        0x40 => "Coprocessor",
        0xFF => "Unassigned class",
        _ => "Reserved",
    }
}

/// Name of the sub-class within its base class, where the pair has one.
pub open spec fn subclass_name(base: u8, sub: u8) -> Option<&'static str> {
    match (base, sub) {
        (0x00, 0x00) => Some("Non-VGA unclassified device"),
        (0x00, 0x01) => Some("VGA compatible unclassified device"),
        (0x00, 0x05) => Some("Image coprocessor"),
        (0x01, 0x00) => Some("SCSI storage controller"),
        (0x01, 0x01) => Some("IDE interface"),
        (0x01, 0x02) => Some("Floppy disk controller"),
        (0x01, 0x03) => Some("IPI bus controller"),
        (0x01, 0x04) => Some("RAID bus controller"),
        (0x01, 0x05) => Some("ATA controller"),
        (0x01, 0x06) => Some("SATA controller"),
        (0x01, 0x07) => Some("Serial Attached SCSI controller"),
        (0x01, 0x08) => Some("Non-Volatile memory controller"),
        (0x01, 0x80) => Some("Mass storage controller"),
        (0x02, 0x00) => Some("Ethernet controller"),
        (0x02, 0x01) => Some("Token ring network controller"),
        (0x02, 0x02) => Some("FDDI network controller"),
        (0x02, 0x03) => Some("ATM network controller"),
        (0x02, 0x04) => Some("ISDN controller"),
        (0x02, 0x05) => Some("WorldFip controller"),
        (0x02, 0x06) => Some("PICMG controller"),
        (0x02, 0x07) => Some("Infiniband controller"),
        (0x02, 0x08) => Some("Fabric controller"),
        (0x02, 0x80) => Some("Network controller"),
        (0x03, 0x00) => Some("VGA compatible controller"),
        (0x03, 0x01) => Some("XGA compatible controller"),
        (0x03, 0x02) => Some("3D controller"),
        (0x03, 0x80) => Some("Display controller"),
        (0x04, 0x00) => Some("Multimedia video controller"),
        (0x04, 0x01) => Some("Multimedia audio controller"),
        (0x04, 0x02) => Some("Computer telephony device"),
        (0x04, 0x03) => Some("Audio device"),
        (0x04, 0x80) => Some("Multimedia controller"),
        (0x05, 0x00) => Some("RAM memory"),
        (0x05, 0x01) => Some("FLASH memory"),
        (0x05, 0x80) => Some("Memory controller"),
        (0x06, 0x00) => Some("Host bridge"),
        (0x06, 0x01) => Some("ISA bridge"),
        (0x06, 0x02) => Some("EISA bridge"),
        (0x06, 0x03) => Some("MicroChannel bridge"),
        (0x06, 0x04) => Some("PCI bridge"),
        (0x06, 0x05) => Some("PCMCIA bridge"),
        (0x06, 0x06) => Some("NuBus bridge"),
        (0x06, 0x07) => Some("CardBus bridge"),
        (0x06, 0x08) => Some("RACEway bridge"),
        (0x06, 0x09) => Some("Semi-transparent PCI-to-PCI bridge"),
        (0x06, 0x0A) => Some("InfiniBand to PCI host bridge"),
        (0x06, 0x80) => Some("Bridge"),
        (0x07, 0x00) => Some("Serial controller"),
        (0x07, 0x01) => Some("Parallel controller"),
        (0x07, 0x02) => Some("Multiport serial controller"),
        (0x07, 0x03) => Some("Modem"),
        (0x07, 0x04) => Some("GPIB controller"),
        (0x07, 0x05) => Some("Smard Card controller"),
        (0x07, 0x80) => Some("Communication controller"),
        (0x08, 0x00) => Some("PIC"),
        (0x08, 0x01) => Some("DMA controller"),
        (0x08, 0x02) => Some("Timer"),
        (0x08, 0x03) => Some("RTC"),
        (0x08, 0x04) => Some("PCI Hot-plug controller"),
        (0x08, 0x05) => Some("SD Host controller"),
        (0x08, 0x06) => Some("IOMMU"),
        (0x08, 0x80) => Some("System peripheral"),
        (0x08, 0x99) => Some("Timing Card"),
        (0x09, 0x00) => Some("Keyboard controller"),
        (0x09, 0x01) => Some("Digitizer Pen"),
        (0x09, 0x02) => Some("Mouse controller"),
        (0x09, 0x03) => Some("Scanner controller"),
        (0x09, 0x04) => Some("Gameport controller"),
        (0x09, 0x80) => Some("Input device controller"),
        (0x0A, 0x00) => Some("Generic Docking Station"),
        (0x0A, 0x80) => Some("Docking Station"),
        (0x0B, 0x00) => Some("386"),
        (0x0B, 0x01) => Some("486"),
        (0x0B, 0x02) => Some("Pentium"),
        (0x0B, 0x10) => Some("Alpha"),
        (0x0B, 0x20) => Some("Power PC"),
        (0x0B, 0x30) => Some("MIPS"),
        (0x0B, 0x40) => Some("Co-processor"),
        (0x0C, 0x00) => Some("FireWire (IEEE 1394)"),
        (0x0C, 0x01) => Some("ACCESS Bus"),
        (0x0C, 0x02) => Some("SSA"),
        (0x0C, 0x03) => Some("USB controller"),
        (0x0C, 0x04) => Some("Fibre Channel"),
        (0x0C, 0x05) => Some("SMBus"),
        (0x0C, 0x06) => Some("InfiniBand"),
        (0x0C, 0x07) => Some("IPMI Interface"),
        (0x0C, 0x08) => Some("SERCOS interface"),
        (0x0C, 0x09) => Some("CANBUS"),
        (0x0D, 0x00) => Some("IRDA controller"),
        (0x0D, 0x01) => Some("Consumer IR controller"),
        (0x0D, 0x10) => Some("RF controller"),
        (0x0D, 0x11) => Some("Bluetooth"),
        (0x0D, 0x12) => Some("Broadband"),
        (0x0D, 0x20) => Some("802.1a controller"),
        (0x0D, 0x21) => Some("802.1b controller"),
        (0x0D, 0x80) => Some("Wireless controller"),
        (0x0E, 0x00) => Some("I2O"),
        (0x0F, 0x01) => Some("Satellite TV controller"),
        (0x0F, 0x02) => Some("Satellite audio communication controller"),
        (0x0F, 0x03) => Some("Satellite voice communication controller"),
        (0x0F, 0x04) => Some("Satellite data communication controller"),
        (0x10, 0x00) => Some("Network and computing encryption device"),
        (0x10, 0x10) => Some("Entertainment encryption device"),
        (0x10, 0x80) => Some("Encryption controller"),
        (0x11, 0x00) => Some("DPIO module"),
        (0x11, 0x01) => Some("Performance counters"),
        (0x11, 0x10) => Some("Communication synchronizer"),
        (0x11, 0x20) => Some("Signal processing management"),
        (0x11, 0x80) => Some("Signal processing controller"),
        (0x12, 0x00) => Some("Processing accelerators"),
        (0x12, 0x01) => Some("AI Inference Accelerator"),
        _ => None,
    }
}

/// Name of the programming interface within its sub-class, where the
/// triple has one.
pub open spec fn interface_name(base: u8, sub: u8, interface: u8) -> Option<&'static str> {
    match (base, sub, interface) {
        (0x01, 0x01, 0x00) => Some("ISA Compatibility mode-only controller"),
        (0x01, 0x01, 0x05) => Some("PCI native mode-only controller"),
        (0x01, 0x01, 0x0A) => Some("ISA Compatibility mode controller, supports both channels switched to PCI native mode"),
        (0x01, 0x01, 0x0F) => Some("PCI native mode controller, supports both channels switched to ISA compatibility mode"),
        (0x01, 0x01, 0x80) => Some("ISA Compatibility mode-only controller, supports bus mastering"),
        (0x01, 0x01, 0x85) => Some("PCI native mode-only controller, supports bus mastering"),
        (0x01, 0x01, 0x8A) => Some("ISA Compatibility mode controller, supports both channels switched to PCI native mode, supports bus mastering"),
        (0x01, 0x01, 0x8F) => Some("PCI native mode controller, supports both channels switched to ISA compatibility mode, supports bus mastering"),
        (0x01, 0x05, 0x20) => Some("ADMA single stepping"),
        (0x01, 0x05, 0x30) => Some("ADMA continuous operation"),
        (0x01, 0x06, 0x00) => Some("Vendor specific"),
        (0x01, 0x06, 0x01) => Some("AHCI 1.0"),
        (0x01, 0x06, 0x02) => Some("Serial Storage Bus"),
        (0x01, 0x07, 0x01) => Some("Serial Storage Bus"),
        (0x01, 0x08, 0x01) => Some("NVMHCI"),
        (0x01, 0x08, 0x02) => Some("NVM Express"),
        (0x03, 0x00, 0x00) => Some("VGA controller"),
        (0x03, 0x00, 0x01) => Some("8514 controller"),
        (0x06, 0x04, 0x00) => Some("Normal decode"),
        (0x06, 0x04, 0x01) => Some("Subtractive decode"),
        (0x06, 0x08, 0x00) => Some("Transparent mode"),
        (0x06, 0x08, 0x01) => Some("Endpoint mode"),
        (0x06, 0x09, 0x40) => Some("Primary bus towards host CPU"),
        (0x06, 0x09, 0x80) => Some("Secondary bus towards host CPU"),
        (0x07, 0x00, 0x00) => Some("8250"),
        (0x07, 0x00, 0x01) => Some("16450"),
        (0x07, 0x00, 0x02) => Some("16550"),
        (0x07, 0x00, 0x03) => Some("16650"),
        (0x07, 0x00, 0x04) => Some("16750"),
        (0x07, 0x00, 0x05) => Some("16850"),
        (0x07, 0x00, 0x06) => Some("16950"),
        (0x07, 0x01, 0x00) => Some("SPP"),
        (0x07, 0x01, 0x01) => Some("BiDir"),
        (0x07, 0x01, 0x02) => Some("ECP"),
        (0x07, 0x01, 0x03) => Some("IEEE1284"),
        (0x07, 0x01, 0xFE) => Some("IEEE1284 Target"),
        (0x07, 0x03, 0x00) => Some("Generic"),
        (0x07, 0x03, 0x01) => Some("Hayes/16450"),
        (0x07, 0x03, 0x02) => Some("Hayes/16550"),
        (0x07, 0x03, 0x03) => Some("Hayes/16650"),
        (0x07, 0x03, 0x04) => Some("Hayes/16750"),
        (0x08, 0x00, 0x00) => Some("8259"),
        (0x08, 0x00, 0x01) => Some("ISA PIC"),
        (0x08, 0x00, 0x02) => Some("EISA PIC"),
        (0x08, 0x00, 0x10) => Some("IO-APIC"),
        (0x08, 0x00, 0x20) => Some("IO(X)-APIC"),
        (0x08, 0x01, 0x00) => Some("8237"),
        (0x08, 0x01, 0x01) => Some("ISA DMA"),
        (0x08, 0x01, 0x02) => Some("EISA DMA"),
        (0x08, 0x02, 0x00) => Some("8254"),
        (0x08, 0x02, 0x01) => Some("ISA Timer"),
        (0x08, 0x02, 0x02) => Some("EISA Timers"),
        (0x08, 0x02, 0x03) => Some("HPET"),
        (0x08, 0x03, 0x00) => Some("Generic"),
        (0x08, 0x03, 0x01) => Some("ISA RTC"),
        (0x08, 0x99, 0x01) => Some("TAP Timing Card"),
        (0x09, 0x04, 0x00) => Some("Generic"),
        (0x09, 0x04, 0x01) => Some("Extended"),
        (0x0C, 0x00, 0x00) => Some("Generic"),
        (0x0C, 0x00, 0x10) => Some("OHCI"),
        (0x0C, 0x03, 0x00) => Some("UHCI"),
        (0x0C, 0x03, 0x10) => Some("OHCI"),
        (0x0C, 0x03, 0x20) => Some("EHCI"),
        (0x0C, 0x03, 0x30) => Some("XHCI"),
        (0x0C, 0x03, 0x40) => Some("USB4 Host Interface"),
        (0x0C, 0x03, 0x80) => Some("Unspecified"),
        (0x0C, 0x03, 0xFE) => Some("USB Device"),
        (0x0C, 0x07, 0x00) => Some("SMIC"),
        (0x0C, 0x07, 0x01) => Some("KCS"),
        (0x0C, 0x07, 0x02) => Some("BT (Block Transfer)"),
        _ => None,
    }
}

/// A programming interface has a name only within a sub-class that has one.
pub proof fn lemma_interface_name_needs_subclass_name(base: u8, sub: u8, interface: u8)
    ensures
        interface_name(base, sub, interface) is Some ==> subclass_name(base, sub) is Some,
{
}

impl ClassCode {
    /// Names of the base class, of the sub-class and of the programming
    /// interface. The base class always has a name, which for a code that
    /// is not assigned is "Reserved"; each of the other two has one only
    /// where the codes above it together with its own are assigned.
    pub fn meaning(&self) -> (names: (&str, Option<&str>, Option<&str>))
        ensures
            names.0 == class_name(self.base),
            names.1 == subclass_name(self.base, self.sub),
            names.2 == interface_name(self.base, self.sub, self.interface),
    {
        match (self.base, self.sub, self.interface) {
            (0x00, 0x00,    _) => ("Unclassified device", Some("Non-VGA unclassified device"), None),
            (0x00, 0x01,    _) => ("Unclassified device", Some("VGA compatible unclassified device"), None),
            (0x00, 0x05,    _) => ("Unclassified device", Some("Image coprocessor"), None),
            (0x00,    _,    _) => ("Unclassified device", None, None),
            (0x01, 0x00,    _) => ("Mass storage controller", Some("SCSI storage controller"), None),
            (0x01, 0x01, 0x00) => ("Mass storage controller", Some("IDE interface"), Some("ISA Compatibility mode-only controller")),
            (0x01, 0x01, 0x05) => ("Mass storage controller", Some("IDE interface"), Some("PCI native mode-only controller")),
            (0x01, 0x01, 0x0A) => ("Mass storage controller", Some("IDE interface"), Some("ISA Compatibility mode controller, supports both channels switched to PCI native mode")),
            (0x01, 0x01, 0x0F) => ("Mass storage controller", Some("IDE interface"), Some("PCI native mode controller, supports both channels switched to ISA compatibility mode")),
            (0x01, 0x01, 0x80) => ("Mass storage controller", Some("IDE interface"), Some("ISA Compatibility mode-only controller, supports bus mastering")),
            (0x01, 0x01, 0x85) => ("Mass storage controller", Some("IDE interface"), Some("PCI native mode-only controller, supports bus mastering")),
            (0x01, 0x01, 0x8A) => ("Mass storage controller", Some("IDE interface"), Some("ISA Compatibility mode controller, supports both channels switched to PCI native mode, supports bus mastering")),
            (0x01, 0x01, 0x8F) => ("Mass storage controller", Some("IDE interface"), Some("PCI native mode controller, supports both channels switched to ISA compatibility mode, supports bus mastering")),
            (0x01, 0x01,    _) => ("Mass storage controller", Some("IDE interface"), None),
            (0x01, 0x02,    _) => ("Mass storage controller", Some("Floppy disk controller"), None),
            (0x01, 0x03,    _) => ("Mass storage controller", Some("IPI bus controller"), None),
            (0x01, 0x04,    _) => ("Mass storage controller", Some("RAID bus controller"), None),
            (0x01, 0x05, 0x20) => ("Mass storage controller", Some("ATA controller"), Some("ADMA single stepping")),
            (0x01, 0x05, 0x30) => ("Mass storage controller", Some("ATA controller"), Some("ADMA continuous operation")),
            (0x01, 0x05,    _) => ("Mass storage controller", Some("ATA controller"), None),
            (0x01, 0x06, 0x00) => ("Mass storage controller", Some("SATA controller"), Some("Vendor specific")),
            (0x01, 0x06, 0x01) => ("Mass storage controller", Some("SATA controller"), Some("AHCI 1.0")),
            (0x01, 0x06, 0x02) => ("Mass storage controller", Some("SATA controller"), Some("Serial Storage Bus")),
            (0x01, 0x06,    _) => ("Mass storage controller", Some("SATA controller"), None),
            (0x01, 0x07, 0x01) => ("Mass storage controller", Some("Serial Attached SCSI controller"), Some("Serial Storage Bus")),
            (0x01, 0x07,    _) => ("Mass storage controller", Some("Serial Attached SCSI controller"), None),
            (0x01, 0x08, 0x01) => ("Mass storage controller", Some("Non-Volatile memory controller"), Some("NVMHCI")),
            (0x01, 0x08, 0x02) => ("Mass storage controller", Some("Non-Volatile memory controller"), Some("NVM Express")),
            (0x01, 0x08,    _) => ("Mass storage controller", Some("Non-Volatile memory controller"), None),
            (0x01, 0x80,    _) => ("Mass storage controller", Some("Mass storage controller"), None),
            (0x01,    _,    _) => ("Mass storage controller", None, None),
            (0x02, 0x00,    _) => ("Network controller", Some("Ethernet controller"), None),
            (0x02, 0x01,    _) => ("Network controller", Some("Token ring network controller"), None),
            (0x02, 0x02,    _) => ("Network controller", Some("FDDI network controller"), None),
            (0x02, 0x03,    _) => ("Network controller", Some("ATM network controller"), None),
            (0x02, 0x04,    _) => ("Network controller", Some("ISDN controller"), None),
            (0x02, 0x05,    _) => ("Network controller", Some("WorldFip controller"), None),
            (0x02, 0x06,    _) => ("Network controller", Some("PICMG controller"), None),
            (0x02, 0x07,    _) => ("Network controller", Some("Infiniband controller"), None),
            (0x02, 0x08,    _) => ("Network controller", Some("Fabric controller"), None),
            (0x02, 0x80,    _) => ("Network controller", Some("Network controller"), None),
            (0x02,    _,    _) => ("Network controller", None, None),
            (0x03, 0x00, 0x00) => ("Display controller", Some("VGA compatible controller"), Some("VGA controller")),
            (0x03, 0x00, 0x01) => ("Display controller", Some("VGA compatible controller"), Some("8514 controller")),
            (0x03, 0x00,    _) => ("Display controller", Some("VGA compatible controller"), None),
            (0x03, 0x01,    _) => ("Display controller", Some("XGA compatible controller"), None),
            (0x03, 0x02,    _) => ("Display controller", Some("3D controller"), None),
            (0x03, 0x80,    _) => ("Display controller", Some("Display controller"), None),
            (0x03,    _,    _) => ("Display controller", None, None),
            (0x04, 0x00,    _) => ("Multimedia controller", Some("Multimedia video controller"), None),
            (0x04, 0x01,    _) => ("Multimedia controller", Some("Multimedia audio controller"), None),
            (0x04, 0x02,    _) => ("Multimedia controller", Some("Computer telephony device"), None),
            (0x04, 0x03,    _) => ("Multimedia controller", Some("Audio device"), None),
            (0x04, 0x80,    _) => ("Multimedia controller", Some("Multimedia controller"), None),
            (0x04,    _,    _) => ("Multimedia controller", None, None),
            (0x05, 0x00,    _) => ("Memory controller", Some("RAM memory"), None),
            (0x05, 0x01,    _) => ("Memory controller", Some("FLASH memory"), None),
            (0x05, 0x80,    _) => ("Memory controller", Some("Memory controller"), None),
            (0x05,    _,    _) => ("Memory controller", None, None),
            (0x06, 0x00,    _) => ("Bridge", Some("Host bridge"), None),
            (0x06, 0x01,    _) => ("Bridge", Some("ISA bridge"), None),
            (0x06, 0x02,    _) => ("Bridge", Some("EISA bridge"), None),
            (0x06, 0x03,    _) => ("Bridge", Some("MicroChannel bridge"), None),
            (0x06, 0x04, 0x00) => ("Bridge", Some("PCI bridge"), Some("Normal decode")),
            (0x06, 0x04, 0x01) => ("Bridge", Some("PCI bridge"), Some("Subtractive decode")),
            (0x06, 0x04,    _) => ("Bridge", Some("PCI bridge"), None),
            (0x06, 0x05,    _) => ("Bridge", Some("PCMCIA bridge"), None),
            (0x06, 0x06,    _) => ("Bridge", Some("NuBus bridge"), None),
            (0x06, 0x07,    _) => ("Bridge", Some("CardBus bridge"), None),
            (0x06, 0x08, 0x00) => ("Bridge", Some("RACEway bridge"), Some("Transparent mode")),
            (0x06, 0x08, 0x01) => ("Bridge", Some("RACEway bridge"), Some("Endpoint mode")),
            (0x06, 0x08,    _) => ("Bridge", Some("RACEway bridge"), None),
            (0x06, 0x09, 0x40) => ("Bridge", Some("Semi-transparent PCI-to-PCI bridge"), Some("Primary bus towards host CPU")),
            (0x06, 0x09, 0x80) => ("Bridge", Some("Semi-transparent PCI-to-PCI bridge"), Some("Secondary bus towards host CPU")),
            (0x06, 0x09,    _) => ("Bridge", Some("Semi-transparent PCI-to-PCI bridge"), None),
            (0x06, 0x0A,    _) => ("Bridge", Some("InfiniBand to PCI host bridge"), None),
            (0x06, 0x80,    _) => ("Bridge", Some("Bridge"), None),
            (0x06,    _,    _) => ("Bridge", None, None),
            (0x07, 0x00, 0x00) => ("Communication controller", Some("Serial controller"), Some("8250")),
            (0x07, 0x00, 0x01) => ("Communication controller", Some("Serial controller"), Some("16450")),
            (0x07, 0x00, 0x02) => ("Communication controller", Some("Serial controller"), Some("16550")),
            (0x07, 0x00, 0x03) => ("Communication controller", Some("Serial controller"), Some("16650")),
            (0x07, 0x00, 0x04) => ("Communication controller", Some("Serial controller"), Some("16750")),
            (0x07, 0x00, 0x05) => ("Communication controller", Some("Serial controller"), Some("16850")),
            (0x07, 0x00, 0x06) => ("Communication controller", Some("Serial controller"), Some("16950")),
            (0x07, 0x00,    _) => ("Communication controller", Some("Serial controller"), None),
            (0x07, 0x01, 0x00) => ("Communication controller", Some("Parallel controller"), Some("SPP")),
            (0x07, 0x01, 0x01) => ("Communication controller", Some("Parallel controller"), Some("BiDir")),
            (0x07, 0x01, 0x02) => ("Communication controller", Some("Parallel controller"), Some("ECP")),
            (0x07, 0x01, 0x03) => ("Communication controller", Some("Parallel controller"), Some("IEEE1284")),
            (0x07, 0x01, 0xFE) => ("Communication controller", Some("Parallel controller"), Some("IEEE1284 Target")),
            (0x07, 0x01,    _) => ("Communication controller", Some("Parallel controller"), None),
            (0x07, 0x02,    _) => ("Communication controller", Some("Multiport serial controller"), None),
            (0x07, 0x03, 0x00) => ("Communication controller", Some("Modem"), Some("Generic")),
            (0x07, 0x03, 0x01) => ("Communication controller", Some("Modem"), Some("Hayes/16450")),
            (0x07, 0x03, 0x02) => ("Communication controller", Some("Modem"), Some("Hayes/16550")),
            (0x07, 0x03, 0x03) => ("Communication controller", Some("Modem"), Some("Hayes/16650")),
            (0x07, 0x03, 0x04) => ("Communication controller", Some("Modem"), Some("Hayes/16750")),
            (0x07, 0x03,    _) => ("Communication controller", Some("Modem"), None),
            (0x07, 0x04,    _) => ("Communication controller", Some("GPIB controller"), None),
            (0x07, 0x05,    _) => ("Communication controller", Some("Smard Card controller"), None),
            (0x07, 0x80,    _) => ("Communication controller", Some("Communication controller"), None),
            (0x07,    _,    _) => ("Communication controller", None, None),
            (0x08, 0x00, 0x00) => ("Generic system peripheral", Some("PIC"), Some("8259")),
            (0x08, 0x00, 0x01) => ("Generic system peripheral", Some("PIC"), Some("ISA PIC")),
            (0x08, 0x00, 0x02) => ("Generic system peripheral", Some("PIC"), Some("EISA PIC")),
            (0x08, 0x00, 0x10) => ("Generic system peripheral", Some("PIC"), Some("IO-APIC")),
            (0x08, 0x00, 0x20) => ("Generic system peripheral", Some("PIC"), Some("IO(X)-APIC")),
            (0x08, 0x00,    _) => ("Generic system peripheral", Some("PIC"), None),
            (0x08, 0x01, 0x00) => ("Generic system peripheral", Some("DMA controller"), Some("8237")),
            (0x08, 0x01, 0x01) => ("Generic system peripheral", Some("DMA controller"), Some("ISA DMA")),
            (0x08, 0x01, 0x02) => ("Generic system peripheral", Some("DMA controller"), Some("EISA DMA")),
            (0x08, 0x01,    _) => ("Generic system peripheral", Some("DMA controller"), None),
            (0x08, 0x02, 0x00) => ("Generic system peripheral", Some("Timer"), Some("8254")),
            (0x08, 0x02, 0x01) => ("Generic system peripheral", Some("Timer"), Some("ISA Timer")),
            (0x08, 0x02, 0x02) => ("Generic system peripheral", Some("Timer"), Some("EISA Timers")),
            (0x08, 0x02, 0x03) => ("Generic system peripheral", Some("Timer"), Some("HPET")),
            (0x08, 0x02,    _) => ("Generic system peripheral", Some("Timer"), None),
            (0x08, 0x03, 0x00) => ("Generic system peripheral", Some("RTC"), Some("Generic")),
            (0x08, 0x03, 0x01) => ("Generic system peripheral", Some("RTC"), Some("ISA RTC")),
            (0x08, 0x03,    _) => ("Generic system peripheral", Some("RTC"), None),
            (0x08, 0x04,    _) => ("Generic system peripheral", Some("PCI Hot-plug controller"), None),
            (0x08, 0x05,    _) => ("Generic system peripheral", Some("SD Host controller"), None),
            (0x08, 0x06,    _) => ("Generic system peripheral", Some("IOMMU"), None),
            (0x08, 0x80,    _) => ("Generic system peripheral", Some("System peripheral"), None),
            (0x08, 0x99, 0x01) => ("Generic system peripheral", Some("Timing Card"), Some("TAP Timing Card")),
            (0x08, 0x99,    _) => ("Generic system peripheral", Some("Timing Card"), None),
            (0x08,    _,    _) => ("Generic system peripheral", None, None),
            (0x09, 0x00,    _) => ("Input device controller", Some("Keyboard controller"), None),
            (0x09, 0x01,    _) => ("Input device controller", Some("Digitizer Pen"), None),
            (0x09, 0x02,    _) => ("Input device controller", Some("Mouse controller"), None),
            (0x09, 0x03,    _) => ("Input device controller", Some("Scanner controller"), None),
            (0x09, 0x04, 0x00) => ("Input device controller", Some("Gameport controller"), Some("Generic")),
            (0x09, 0x04, 0x01) => ("Input device controller", Some("Gameport controller"), Some("Extended")),
            (0x09, 0x04,    _) => ("Input device controller", Some("Gameport controller"), None),
            (0x09, 0x80,    _) => ("Input device controller", Some("Input device controller"), None),
            (0x09,    _,    _) => ("Input device controller", None, None),
            (0x0A, 0x00,    _) => ("Docking station", Some("Generic Docking Station"), None),
            (0x0A, 0x80,    _) => ("Docking station", Some("Docking Station"), None),
            (0x0A,    _,    _) => ("Docking station", None, None),
            (0x0B, 0x00,    _) => ("Processor", Some("386"), None),
            (0x0B, 0x01,    _) => ("Processor", Some("486"), None),
            (0x0B, 0x02,    _) => ("Processor", Some("Pentium"), None),
            (0x0B, 0x10,    _) => ("Processor", Some("Alpha"), None),
            (0x0B, 0x20,    _) => ("Processor", Some("Power PC"), None),
            (0x0B, 0x30,    _) => ("Processor", Some("MIPS"), None),
            (0x0B, 0x40,    _) => ("Processor", Some("Co-processor"), None),
            (0x0B,    _,    _) => ("Processor", None, None),
            (0x0C, 0x00, 0x00) => ("Serial bus controller", Some("FireWire (IEEE 1394)"), Some("Generic")),
            (0x0C, 0x00, 0x10) => ("Serial bus controller", Some("FireWire (IEEE 1394)"), Some("OHCI")),
            (0x0C, 0x00,    _) => ("Serial bus controller", Some("FireWire (IEEE 1394)"), None),
            (0x0C, 0x01,    _) => ("Serial bus controller", Some("ACCESS Bus"), None),
            (0x0C, 0x02,    _) => ("Serial bus controller", Some("SSA"), None),
            (0x0C, 0x03, 0x00) => ("Serial bus controller", Some("USB controller"), Some("UHCI")),
            (0x0C, 0x03, 0x10) => ("Serial bus controller", Some("USB controller"), Some("OHCI")),
            (0x0C, 0x03, 0x20) => ("Serial bus controller", Some("USB controller"), Some("EHCI")),
            (0x0C, 0x03, 0x30) => ("Serial bus controller", Some("USB controller"), Some("XHCI")),
            (0x0C, 0x03, 0x40) => ("Serial bus controller", Some("USB controller"), Some("USB4 Host Interface")),
            (0x0C, 0x03, 0x80) => ("Serial bus controller", Some("USB controller"), Some("Unspecified")),
            (0x0C, 0x03, 0xFE) => ("Serial bus controller", Some("USB controller"), Some("USB Device")),
            (0x0C, 0x03,    _) => ("Serial bus controller", Some("USB controller"), None),
            (0x0C, 0x04,    _) => ("Serial bus controller", Some("Fibre Channel"), None),
            (0x0C, 0x05,    _) => ("Serial bus controller", Some("SMBus"), None),
            (0x0C, 0x06,    _) => ("Serial bus controller", Some("InfiniBand"), None),
            (0x0C, 0x07, 0x00) => ("Serial bus controller", Some("IPMI Interface"), Some("SMIC")),
            (0x0C, 0x07, 0x01) => ("Serial bus controller", Some("IPMI Interface"), Some("KCS")),
            (0x0C, 0x07, 0x02) => ("Serial bus controller", Some("IPMI Interface"), Some("BT (Block Transfer)")),
            (0x0C, 0x07,    _) => ("Serial bus controller", Some("IPMI Interface"), None),
            (0x0C, 0x08,    _) => ("Serial bus controller", Some("SERCOS interface"), None),
            (0x0C, 0x09,    _) => ("Serial bus controller", Some("CANBUS"), None),
            (0x0C,    _,    _) => ("Serial bus controller", None, None),
            (0x0D, 0x00,    _) => ("Wireless controller", Some("IRDA controller"), None),
            (0x0D, 0x01,    _) => ("Wireless controller", Some("Consumer IR controller"), None),
            (0x0D, 0x10,    _) => ("Wireless controller", Some("RF controller"), None),
            (0x0D, 0x11,    _) => ("Wireless controller", Some("Bluetooth"), None),
            (0x0D, 0x12,    _) => ("Wireless controller", Some("Broadband"), None),
            (0x0D, 0x20,    _) => ("Wireless controller", Some("802.1a controller"), None),
            (0x0D, 0x21,    _) => ("Wireless controller", Some("802.1b controller"), None),
            (0x0D, 0x80,    _) => ("Wireless controller", Some("Wireless controller"), None),
            (0x0D,    _,    _) => ("Wireless controller", None, None),
            (0x0E, 0x00,    _) => ("Intelligent controller", Some("I2O"), None),
            (0x0E,    _,    _) => ("Intelligent controller", None, None),
            (0x0F, 0x01,    _) => ("Satellite communications controller", Some("Satellite TV controller"), None),
            (0x0F, 0x02,    _) => ("Satellite communications controller", Some("Satellite audio communication controller"), None),
            (0x0F, 0x03,    _) => ("Satellite communications controller", Some("Satellite voice communication controller"), None),
            (0x0F, 0x04,    _) => ("Satellite communications controller", Some("Satellite data communication controller"), None),
            (0x0F,    _,    _) => ("Satellite communications controller", None, None),
            (0x10, 0x00,    _) => ("Encryption controller", Some("Network and computing encryption device"), None),
            (0x10, 0x10,    _) => ("Encryption controller", Some("Entertainment encryption device"), None),
            (0x10, 0x80,    _) => ("Encryption controller", Some("Encryption controller"), None),
            (0x10,    _,    _) => ("Encryption controller", None, None),
            (0x11, 0x00,    _) => ("Signal processing controller", Some("DPIO module"), None),
            (0x11, 0x01,    _) => ("Signal processing controller", Some("Performance counters"), None),
            (0x11, 0x10,    _) => ("Signal processing controller", Some("Communication synchronizer"), None),
            (0x11, 0x20,    _) => ("Signal processing controller", Some("Signal processing management"), None),
            (0x11, 0x80,    _) => ("Signal processing controller", Some("Signal processing controller"), None),
            (0x11,    _,    _) => ("Signal processing controller", None, None),
            (0x12, 0x00,    _) => ("Processing accelerators", Some("Processing accelerators"), None),
            (0x12, 0x01,    _) => ("Processing accelerators", Some("AI Inference Accelerator"), None),
            (0x12,    _,    _) => ("Processing accelerators", None, None),
            (0x13,    _,    _) => ("Non-Essential Instrumentation", None, None),
            (0x40,    _,    _) => ("Coprocessor", None, None),
            (0xFF,    _,    _) => ("Unassigned class", None, None),
            (_,    _,    _) => ("Reserved", None, None),
        }
    }
}

} // verus!
