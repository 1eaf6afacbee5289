//! Input source definitions and the dummy input source.

use vstd::prelude::*;

use crate::text;

verus! {

/// A reading from an input source: electrically LOW or HIGH.
#[derive(Debug, Clone, Copy, PartialEq, Eq, Structural)]
pub enum Reading {
    /// An electrically LOW reading.
    Low,
    /// An electrically HIGH reading.
    High,
}

/// Something from which a `Reading` can be read.
pub trait InputSource {
    /// Whether the source is in a state in which it can be read.
    spec fn can_read(&self) -> bool;

    /// Name of the input source.
    fn name(&self) -> String;

    /// Performs any setup that may fail; `Err` describes the failure.
    fn init(&mut self) -> Result<(), String>;

    /// Reads the current `Reading`.
    fn read(&mut self) -> Reading
        requires
            old(self).can_read(),
    ;

    /// Checks the source's configuration; `Err` lists the problems found.
    fn sanity_check(&self) -> Result<(), Vec<String>>;
}

/// The choice of input source to monitor.
#[derive(Debug, Clone, Copy, PartialEq, Eq, Structural)]
pub enum ChoiceOfInputSource {
    /// A GPIO pin.
    Gpio,
    /// The dummy source, which cycles through readings.
    Dummy,
}

impl Default for ChoiceOfInputSource {
    fn default() -> (r: Self)
        ensures
            r == ChoiceOfInputSource::Gpio,
    {
        ChoiceOfInputSource::Gpio
    }
}

/// Input source that reads a GPIO pin; this part holds its configuration.
pub struct GpioInputSource {
    /// GPIO pin number to read from.
    pub pin_number: u8,
}

impl GpioInputSource {
    /// A GPIO input source for the given pin number.
    pub fn new(pin_number: u8) -> (s: Self)
        ensures
            s.pin_number == pin_number,
    {
        GpioInputSource { pin_number }
    }

    /// Name of the source: `GPIO` followed by the pin number.
    pub fn name(&self) -> (s: String)
        ensures
            s@ == seq!['G', 'P', 'I', 'O'] + text::decimal(self.pin_number as nat),
    {
        let mut v: Vec<char> = Vec::new();
        v.push('G');
        v.push('P');
        v.push('I');
        v.push('O');
        text::push_decimal(&mut v, self.pin_number as u64);
        assert(v@ =~= seq!['G', 'P', 'I', 'O'] + text::decimal(self.pin_number as nat));
        text::string_of(&v)
    }

    /// Checks the pin number: pins above 40 do not exist.
    pub fn sanity_check(&self) -> (r: Result<(), Vec<String>>)
        ensures
            r is Ok <==> self.pin_number <= 40,
            r matches Err(errors) ==> errors@.len() == 1 && errors@[0]@ == invalid_pin_message(
                self.pin_number,
            ),
    {
        if self.pin_number > 40 {
            let mut errors: Vec<String> = Vec::new();
            let mut v = text::chars_of("Invalid GPIO pin number: ");
            text::push_decimal(&mut v, self.pin_number as u64);
            proof {
                reveal_strlit("Invalid GPIO pin number: ");
            }
            errors.push(text::string_of(&v));
            Err(errors)
        } else {
            Ok(())
        }
    }
}

/// The error reported for a GPIO pin number that does not exist.
pub open spec fn invalid_pin_message(pin: u8) -> Seq<char> {
    "Invalid GPIO pin number: "@ + text::decimal(pin as nat)
}

/// Input source that simulates readings by cycling through `Reading` states.
pub struct DummyInputSource {
    /// Number of readings taken so far.
    pub counter: u32,
    /// Cycle length of the readings.
    pub modulus: u32,
    /// Point in the cycle where readings turn from LOW to HIGH.
    pub threshold: u32,
}

/// The reading the dummy source yields on its `count`-th read.
pub open spec fn dummy_reading(count: u32, modulus: u32, threshold: u32) -> Reading {
    if count % modulus < threshold {
        Reading::Low
    } else {
        Reading::High
    }
}

impl DummyInputSource {
    /// A dummy source with the given cycle length and threshold.
    pub fn new(modulus: u32, threshold: u32) -> (s: Self)
        ensures
            s.counter == 0,
            s.modulus == modulus,
            s.threshold == threshold,
    {
        DummyInputSource { counter: 0, modulus, threshold }
    }
}

impl InputSource for DummyInputSource {
    open spec fn can_read(&self) -> bool {
        self.modulus > 0 && self.counter < u32::MAX
    }

    /// The name `dummy`.
    fn name(&self) -> (s: String)
        ensures
            s@ == "dummy"@,
    {
        String::from_str("dummy")
    }

    /// Does nothing and succeeds.
    fn init(&mut self) -> (r: Result<(), String>)
        ensures
            r is Ok,
            *final(self) == *old(self),
    {
        Ok(())
    }

    /// Counts the reading, then yields LOW while the count modulo the cycle
    /// length is below the threshold, HIGH otherwise.
    fn read(&mut self) -> (r: Reading)
        ensures
            final(self).counter == old(self).counter + 1,
            final(self).modulus == old(self).modulus,
            final(self).threshold == old(self).threshold,
            r == dummy_reading(final(self).counter, old(self).modulus, old(self).threshold),
    {
        self.counter = self.counter + 1;
        if self.counter % self.modulus < self.threshold {
            Reading::Low
        } else {
            Reading::High
        }
    }

    /// A zero cycle length and a threshold above the cycle length are errors.
    fn sanity_check(&self) -> (r: Result<(), Vec<String>>)
        ensures
            r is Ok <==> (self.modulus != 0 && self.threshold <= self.modulus),
            r matches Err(errors) ==> errors@.map_values(|e: String| e@) == dummy_errors(
                self.modulus,
                self.threshold,
            ),
    {
        let mut errors: Vec<String> = Vec::new();
        if self.modulus == 0 {
            errors.push(String::from_str("Modulus may not be zero"));
        }
        if self.threshold > self.modulus {
            errors.push(String::from_str("Threshold may not be greater than modulus"));
        }
        assert(errors@.map_values(|e: String| e@) =~= dummy_errors(self.modulus, self.threshold));
        if errors.len() == 0 {
            proof {
                if self.modulus == 0 || self.threshold > self.modulus {
                    assert(dummy_errors(self.modulus, self.threshold).len() > 0);
                }
            }
            Ok(())
        } else {
            Err(errors)
        }
    }
}

/// The problems the dummy source's sanity check reports, in order.
pub open spec fn dummy_errors(modulus: u32, threshold: u32) -> Seq<Seq<char>> {
    (if modulus == 0 {
        seq!["Modulus may not be zero"@]
    } else {
        Seq::<Seq<char>>::empty()
    }) + (if threshold > modulus {
        seq!["Threshold may not be greater than modulus"@]
    } else {
        Seq::<Seq<char>>::empty()
    })
}

/// The dummy source cycles: its reading repeats every `modulus` reads.
pub proof fn law_dummy_readings_cycle(count: u32, modulus: u32, threshold: u32)
    requires
        modulus > 0,
        count + modulus <= u32::MAX,
    ensures
        dummy_reading((count + modulus) as u32, modulus, threshold) == dummy_reading(
            count,
            modulus,
            threshold,
        ),
{
    vstd::arithmetic::div_mod::lemma_mod_add_multiples_vanish(count as int, modulus as int);
}

} // verus!
