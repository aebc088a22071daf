//! The packed cell model: one symbol cell carries a one-bit color and a
//! structural role tag in a single byte (role in the bits above the lowest,
//! color in the lowest bit). The role is fixed at construction; only the
//! color can change afterwards.

use vstd::prelude::*;

verus! {

/// Structural role of a single cell in the QR code.
#[derive(Debug, Clone, Copy, PartialEq, Eq)]
pub enum ModuleType {
    /// The cell is part of the encoded data.
    Data,
    /// The cell is part of a finder pattern (the large corner squares).
    FinderPattern,
    /// The cell is part of an alignment pattern (the smaller squares).
    Alignment,
    /// The cell is part of a timing pattern (lines between finder patterns).
    Timing,
    /// The cell is part of the format information.
    Format,
    /// The cell is part of the version information.
    Version,
    /// The single always-dark cell.
    DarkModule,
    /// Space between the finder patterns and the rest.
    Empty,
}

/// The tag value under which a role is packed, in the bits above the color bit.
pub open spec fn spec_type_tag(t: ModuleType) -> u8 {
    match t {
        ModuleType::Data => 0,
        ModuleType::FinderPattern => 1,
        ModuleType::Alignment => 2,
        ModuleType::Timing => 3,
        ModuleType::Format => 4,
        ModuleType::Version => 5,
        ModuleType::DarkModule => 6,
        ModuleType::Empty => 7,
    }
}

/// The role packed under a tag value.
pub open spec fn spec_type_of_tag(tag: u8) -> ModuleType {
    if tag == 0 {
        ModuleType::Data
    } else if tag == 1 {
        ModuleType::FinderPattern
    } else if tag == 2 {
        ModuleType::Alignment
    } else if tag == 3 {
        ModuleType::Timing
    } else if tag == 4 {
        ModuleType::Format
    } else if tag == 5 {
        ModuleType::Version
    } else if tag == 6 {
        ModuleType::DarkModule
    } else {
        ModuleType::Empty
    }
}

/// A single cell of the symbol grid, packed into one byte: the role tag in
/// the bits above the lowest bit, the color in the lowest bit.
#[derive(Copy, Clone, Debug, PartialEq, Eq)]
pub struct Module(pub u8);

impl Module {
    /// Represents a dark module, which is a black pixel.
    pub const DARK: bool = true;

    /// Represents a light module, which is a white pixel.
    pub const LIGHT: bool = false;

    /// The color held in the lowest bit.
    pub open spec fn spec_value(self) -> bool {
        self.0 % 2 == 1
    }

    /// The role tag held in the bits above the lowest bit.
    pub open spec fn spec_type(self) -> ModuleType {
        spec_type_of_tag(self.0 / 2)
    }

    /// The packed byte is one of the sixteen values a constructor can produce.
    pub open spec fn wf(self) -> bool {
        self.0 < 16
    }

    /// Creates a new module with the given type and value: the role tag
    /// shifted left by one, the color in the lowest bit.
    pub fn new(value: bool, module_type: ModuleType) -> (r: Self)
        ensures
            r.0 == spec_type_tag(module_type) * 2 + (if value {
                1int
            } else {
                0int
            }),
            r.spec_value() == value,
            r.spec_type() == module_type,
            r.wf(),
    {
        let tag: u8 = match module_type {
            ModuleType::Data => 0,
            ModuleType::FinderPattern => 1,
            ModuleType::Alignment => 2,
            ModuleType::Timing => 3,
            ModuleType::Format => 4,
            ModuleType::Version => 5,
            ModuleType::DarkModule => 6,
            ModuleType::Empty => 7,
        };
        let color: u8 = if value {
            1
        } else {
            0
        };
        Module(tag * 2 + color)
    }

    /// Creates a new module with the given value with type data.
    pub fn data(value: bool) -> (r: Self)
        ensures
            r.spec_value() == value,
            r.spec_type() == ModuleType::Data,
            r.wf(),
    {
        Module::new(value, ModuleType::Data)
    }

    /// Creates a new module with the given value with type finder pattern.
    pub fn finder_pattern(value: bool) -> (r: Self)
        ensures
            r.spec_value() == value,
            r.spec_type() == ModuleType::FinderPattern,
            r.wf(),
    {
        Module::new(value, ModuleType::FinderPattern)
    }

    /// Creates a new module with the given value with type alignment.
    pub fn alignment(value: bool) -> (r: Self)
        ensures
            r.spec_value() == value,
            r.spec_type() == ModuleType::Alignment,
            r.wf(),
    {
        Module::new(value, ModuleType::Alignment)
    }

    /// Creates a new module with the given value with type timing.
    pub fn timing(value: bool) -> (r: Self)
        ensures
            r.spec_value() == value,
            r.spec_type() == ModuleType::Timing,
            r.wf(),
    {
        Module::new(value, ModuleType::Timing)
    }

    /// Creates a new module with the given value with type format.
    pub fn format(value: bool) -> (r: Self)
        ensures
            r.spec_value() == value,
            r.spec_type() == ModuleType::Format,
            r.wf(),
    {
        Module::new(value, ModuleType::Format)
    }

    /// Creates a new module with the given value with type version.
    pub fn version(value: bool) -> (r: Self)
        ensures
            r.spec_value() == value,
            r.spec_type() == ModuleType::Version,
            r.wf(),
    {
        Module::new(value, ModuleType::Version)
    }

    /// Creates a new module with the given value with type dark module.
    pub fn dark(value: bool) -> (r: Self)
        ensures
            r.spec_value() == value,
            r.spec_type() == ModuleType::DarkModule,
            r.wf(),
    {
        Module::new(value, ModuleType::DarkModule)
    }

    /// Creates a new module with the given value with type empty.
    pub fn empty(value: bool) -> (r: Self)
        ensures
            r.spec_value() == value,
            r.spec_type() == ModuleType::Empty,
            r.wf(),
    {
        Module::new(value, ModuleType::Empty)
    }

    /// Returns the boolean value of the module.
    pub fn value(&self) -> (r: bool)
        ensures
            r == self.spec_value(),
    {
        self.0 % 2 == 1
    }

    /// Returns the type of the module.
    pub fn module_type(&self) -> (r: ModuleType)
        requires
            self.wf(),
        ensures
            r == self.spec_type(),
    {
        let tag = self.0 / 2;
        if tag == 0 {
            ModuleType::Data
        } else if tag == 1 {
            ModuleType::FinderPattern
        } else if tag == 2 {
            ModuleType::Alignment
        } else if tag == 3 {
            ModuleType::Timing
        } else if tag == 4 {
            ModuleType::Format
        } else if tag == 5 {
            ModuleType::Version
        } else if tag == 6 {
            ModuleType::DarkModule
        } else {
            ModuleType::Empty
        }
    }

    /// Sets the boolean value of the module, keeping its type.
    pub fn set(&mut self, value: bool)
        ensures
            final(self).spec_value() == value,
            final(self).spec_type() == old(self).spec_type(),
            final(self).wf() == old(self).wf(),
    {
        self.0 = (self.0 / 2) * 2 + (if value {
            1
        } else {
            0
        });
    }

    /// Toggles the boolean value of the module, keeping its type.
    pub fn toggle(&mut self)
        ensures
            final(self).spec_value() == !old(self).spec_value(),
            final(self).spec_type() == old(self).spec_type(),
            final(self).wf() == old(self).wf(),
    {
        let value = self.0 % 2 == 0;
        self.0 = (self.0 / 2) * 2 + (if value {
            1
        } else {
            0
        });
    }
}

/// A full symbol: a square grid of modules whose side length is fixed by
/// the chosen version.
pub type Matrix<const N: usize> = [[Module; N]; N];

} // verus!
