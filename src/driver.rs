//! The converter handle: validation, one transaction per read, decoding.
use vstd::prelude::*;
use crate::bus::configure_bus;
use crate::bus::mode_bits;
use crate::bus::open_bus;
use crate::bus::transfer3;
use crate::bus::Bus;
use crate::error::Mcp3008Error;
use crate::protocol::command;
use crate::protocol::command_spec;
use crate::protocol::decode;
use crate::protocol::decode_spec;
use crate::protocol::MAX_CHANNEL;
use crate::protocol::MAX_SAMPLE;

verus! {

/// Clock rate of the bus, in hertz.
pub const BUS_SPEED_HZ: u32 = 1_000_000;

/// Raw bits of clock mode 0: clock idles low, data sampled on the leading edge.
pub const SPI_MODE_0_BITS: u32 = 0;

/// What a read yields from the outcome of its transaction.
pub open spec fn read_outcome(response: std::io::Result<[u8; 3]>) -> Result<u16, Mcp3008Error> {
    match response {
        Ok(rx) => Ok(decode_spec(rx@[0], rx@[1], rx@[2])),
        Err(e) => Err(Mcp3008Error::SpidevError(e)),
    }
}

/// Checks the channel and builds its command; no bus is involved.
pub fn channel_command(adc_number: u8) -> (r: Result<[u8; 3], Mcp3008Error>)
    ensures
        adc_number <= MAX_CHANNEL <==> r is Ok,
        r matches Ok(tx) ==> tx@ == command_spec(adc_number),
        adc_number > MAX_CHANNEL ==> r == Err::<[u8; 3], Mcp3008Error>(
            Mcp3008Error::AdcOutOfRangeError(adc_number),
        ),
{
    if adc_number <= MAX_CHANNEL {
        Ok(command(adc_number))
    } else {
        Err(Mcp3008Error::AdcOutOfRangeError(adc_number))
    }
}

/// Turns the outcome of a transaction into the result of a read: the decoded
/// sample, or the bus error as it came.
pub fn sample_from_transfer(response: std::io::Result<[u8; 3]>) -> (r: Result<u16, Mcp3008Error>)
    ensures
        r == read_outcome(response),
        r matches Ok(v) ==> v <= MAX_SAMPLE,
{
    match response {
        Ok(rx) => Ok(decode(&rx)),
        Err(e) => Err(Mcp3008Error::from(e)),
    }
}

/// A failed transaction yields the bus error and nothing else, and leaves no
/// trace: a later transaction that succeeds is decoded as if none had failed.
pub proof fn lemma_failure_does_not_carry_over(e: std::io::Error, rx: [u8; 3])
    ensures
        read_outcome(Err(e)) == Err::<u16, Mcp3008Error>(Mcp3008Error::SpidevError(e)),
        read_outcome(Ok(rx)) == Ok::<u16, Mcp3008Error>(decode_spec(rx@[0], rx@[1], rx@[2])),
{
}

/// The bus settings the converter needs: 1 MHz, clock mode 0, most
/// significant bit first; the word size is left as the device has it.
pub open spec fn converter_options(o: spidev::SpidevOptions) -> bool {
    &&& o.max_speed_hz == Some(BUS_SPEED_HZ)
    &&& o.spi_mode matches Some(m) && mode_bits(m) == SPI_MODE_0_BITS
    &&& o.lsb_first == Some(false)
    &&& o.bits_per_word is None
}

/// The options the bus is configured with.
pub fn bus_options() -> (o: spidev::SpidevOptions)
    ensures
        converter_options(o),
{
    let mut options = spidev::SpidevOptions::new();
    options.max_speed_hz = Some(BUS_SPEED_HZ);
    options.spi_mode = Some(spidev::SpiModeFlags::from_bits_retain(SPI_MODE_0_BITS));
    options.lsb_first = Some(false);
    options
}

/// An open, configured converter on a spidev bus. The device is closed when the
/// handle is dropped.
pub struct Mcp3008 {
    bus: Bus,
}

impl Mcp3008 {
    /// The options the bus was configured with.
    pub closed spec fn config(&self) -> Option<spidev::SpidevOptions> {
        self.bus.config()
    }

    /// The bytes sent in each transaction over this handle, oldest first.
    pub closed spec fn sent(&self) -> Seq<Seq<u8>> {
        self.bus.sent()
    }

    /// Opens the bus device at `spi_dev_path` and configures it for the
    /// converter. A failure to open or to configure comes back as the bus
    /// error, and no handle is left open.
    pub fn new(spi_dev_path: &str) -> (r: Result<Mcp3008, Mcp3008Error>)
        ensures
            r matches Ok(m) ==> {
                &&& m.config() matches Some(o) && converter_options(o)
                &&& m.sent().len() == 0
            },
            r matches Err(e) ==> e is SpidevError,
    {
        let mut bus = match open_bus(spi_dev_path) {
            Ok(bus) => bus,
            Err(err) => return Err(Mcp3008Error::from(err)),
        };
        let options = bus_options();
        match configure_bus(&mut bus, &options) {
            Ok(_) => Ok(Mcp3008 { bus }),
            Err(err) => Err(Mcp3008Error::SpidevError(err)),
        }
    }

    /// Samples channel `adc_number` with one bus transaction. A channel past
    /// the last fails before the bus is touched; a failed transaction is
    /// returned as it came, is not retried, and leaves the handle usable.
    pub fn read_adc(&mut self, adc_number: u8) -> (r: Result<u16, Mcp3008Error>)
        ensures
            final(self).config() == old(self).config(),
            adc_number > MAX_CHANNEL ==> final(self).sent() == old(self).sent(),
            adc_number <= MAX_CHANNEL ==> final(self).sent() == old(self).sent().push(
                command_spec(adc_number),
            ),
            adc_number > MAX_CHANNEL ==> r == Err::<u16, Mcp3008Error>(
                Mcp3008Error::AdcOutOfRangeError(adc_number),
            ),
            adc_number <= MAX_CHANNEL ==> (r matches Err(e) ==> e is SpidevError),
            r matches Ok(v) ==> {
                &&& adc_number <= MAX_CHANNEL
                &&& v <= MAX_SAMPLE
                &&& exists|r0: u8, r1: u8, r2: u8| v == decode_spec(r0, r1, r2)
            },
    {
        let tx = match channel_command(adc_number) {
            Ok(tx) => tx,
            Err(e) => return Err(e),
        };
        let response = transfer3(&mut self.bus, &tx);
        let ghost outcome = response;
        let r = sample_from_transfer(response);
        proof {
            if let Ok(rx) = outcome {
                assert(r == Ok::<u16, Mcp3008Error>(decode_spec(rx@[0], rx@[1], rx@[2])));
            }
        }
        r
    }
}

} // verus!
