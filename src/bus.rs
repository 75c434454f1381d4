//! The spidev bus as the driver uses it: its types, and the calls that open,
//! configure and drive it. `Bus` keeps, beside the device, a record of the
//! configuration it took and of every transaction sent over it.
use vstd::prelude::*;

verus! {

#[verifier::external_type_specification]
#[verifier::external_body]
pub struct ExSpidev(spidev::Spidev);

#[verifier::external_type_specification]
#[verifier::external_body]
pub struct ExSpiModeFlags(spidev::SpiModeFlags);

#[verifier::external_type_specification]
pub struct ExSpidevOptions(spidev::SpidevOptions);

/// The raw bits that a set of spidev mode flags holds.
pub uninterp spec fn mode_bits(m: spidev::SpiModeFlags) -> u32;

/// Relies on spidev's `SpidevOptions::new`: the derived default, every option
/// left unset.
pub assume_specification[ spidev::SpidevOptions::new ]() -> (r: spidev::SpidevOptions)
    ensures
        r.bits_per_word is None,
        r.max_speed_hz is None,
        r.lsb_first is None,
        r.spi_mode is None,
;

/// Relies on bitflags' `from_bits_retain` on spidev's mode flags: the flags
/// hold exactly the bits given.
pub assume_specification[ spidev::SpiModeFlags::from_bits_retain ](bits: u32) -> (r:
    spidev::SpiModeFlags)
    ensures
        mode_bits(r) == bits,
;

/// An open spidev device.
pub struct Bus {
    spi: spidev::Spidev,
    config: Ghost<Option<spidev::SpidevOptions>>,
    sent: Ghost<Seq<Seq<u8>>>,
}

impl Bus {
    /// The options last applied with success, if any.
    pub closed spec fn config(&self) -> Option<spidev::SpidevOptions> {
        self.config@
    }

    /// The bytes sent in each transaction so far, oldest first.
    pub closed spec fn sent(&self) -> Seq<Seq<u8>> {
        self.sent@
    }
}

/// Relies on spidev's `Spidev::open`: opens the device file for reading and
/// writing; whether it succeeds rests with the system. A new device has taken
/// no options and carried no transaction.
#[verifier::external_body]
pub(crate) fn open_bus(path: &str) -> (r: std::io::Result<Bus>)
    ensures
        r matches Ok(bus) ==> bus.config() is None && bus.sent().len() == 0,
{
    let spi = spidev::Spidev::open(path)?;
    Ok(Bus { spi, config: Ghost(None), sent: Ghost(Seq::empty()) })
}

/// Relies on spidev's `Spidev::configure`: writes each option that is set to the
/// device with an ioctl, and makes no transaction; the outcome rests with the
/// kernel.
#[verifier::external_body]
pub(crate) fn configure_bus(bus: &mut Bus, options: &spidev::SpidevOptions) -> (r:
    std::io::Result<()>)
    ensures
        final(bus).sent() == old(bus).sent(),
        r is Ok ==> final(bus).config() == Some(*options),
{
    bus.spi.configure(options)
}

/// Relies on spidev's `SpidevTransfer::read_write` and `Spidev::transfer`: one
/// full-duplex transaction that sends `tx` and hands back the bytes received
/// meanwhile, as many as were sent.
#[verifier::external_body]
pub(crate) fn transfer3(bus: &mut Bus, tx: &[u8; 3]) -> (r: std::io::Result<[u8; 3]>)
    ensures
        final(bus).config() == old(bus).config(),
        final(bus).sent() == old(bus).sent().push(tx@),
{
    let mut rx = [0u8; 3];
    {
        let mut transfer = spidev::SpidevTransfer::read_write(tx, &mut rx);
        bus.spi.transfer(&mut transfer)?;
    }
    Ok(rx)
}

} // verus!
