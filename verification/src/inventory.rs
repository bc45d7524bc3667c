//! The inventory: counts per category, taken from one category at a time
//! and refilled in all categories at once. No count ever wraps: an operation
//! that a count cannot take is refused and changes nothing.

use vstd::prelude::*;
use crate::error::ContractError;
use crate::state::{Category, MachineItems};

verus! {

impl Category {
    /// The name by which a command asks for one item of the category.
    pub open spec fn name_text(self) -> Seq<char> {
        match self {
            Category::ChocolateBar => "chocolate bar"@,
            Category::WaterBottle => "water bottle"@,
            Category::ChipsPacket => "chips packet"@,
        }
    }

    /// The name of the category in the plural, as failures report it.
    pub open spec fn plural_text(self) -> Seq<char> {
        match self {
            Category::ChocolateBar => "chocolate bars"@,
            Category::WaterBottle => "water bottles"@,
            Category::ChipsPacket => "chips packets"@,
        }
    }

    /// The category that a name stands for, if any.
    pub open spec fn named(name: Seq<char>) -> Option<Category> {
        if name == Category::ChocolateBar.name_text() {
            Some(Category::ChocolateBar)
        } else if name == Category::WaterBottle.name_text() {
            Some(Category::WaterBottle)
        } else if name == Category::ChipsPacket.name_text() {
            Some(Category::ChipsPacket)
        } else {
            None
        }
    }

    /// The name by which a command asks for one item of the category.
    pub fn name(self) -> (text: &'static str)
        ensures
            text@ == self.name_text(),
    {
        match self {
            Category::ChocolateBar => "chocolate bar",
            Category::WaterBottle => "water bottle",
            Category::ChipsPacket => "chips packet",
        }
    }

    /// The name of the category in the plural.
    pub fn plural(self) -> (text: &'static str)
        ensures
            text@ == self.plural_text(),
    {
        match self {
            Category::ChocolateBar => "chocolate bars",
            Category::WaterBottle => "water bottles",
            Category::ChipsPacket => "chips packets",
        }
    }

    /// Finds the category that `name` stands for. Names are compared
    /// exactly: no trimming, no folding of case.
    pub fn from_name(name: &str) -> (category: Option<Category>)
        ensures
            category == Category::named(name@),
    {
        let name = name.to_owned();
        if name == Category::ChocolateBar.name().to_owned() {
            Some(Category::ChocolateBar)
        } else if name == Category::WaterBottle.name().to_owned() {
            Some(Category::WaterBottle)
        } else if name == Category::ChipsPacket.name().to_owned() {
            Some(Category::ChipsPacket)
        } else {
            None
        }
    }
}

impl MachineItems {
    /// The count of one category.
    pub open spec fn count_of(self, category: Category) -> u64 {
        match category {
            Category::ChocolateBar => self.chocolate_bars,
            Category::WaterBottle => self.water_bottles,
            Category::ChipsPacket => self.chips_packets,
        }
    }

    /// The same counts but for one category, which has `count`.
    pub open spec fn with_count(self, category: Category, count: u64) -> MachineItems {
        match category {
            Category::ChocolateBar => MachineItems { chocolate_bars: count, ..self },
            Category::WaterBottle => MachineItems { water_bottles: count, ..self },
            Category::ChipsPacket => MachineItems { chips_packets: count, ..self },
        }
    }

    /// Every count raised by `amount`.
    pub open spec fn raised_by(self, amount: u64) -> MachineItems
        recommends
            self.can_refill(amount),
    {
        MachineItems {
            chocolate_bars: (self.chocolate_bars + amount) as u64,
            water_bottles: (self.water_bottles + amount) as u64,
            chips_packets: (self.chips_packets + amount) as u64,
        }
    }

    /// Whether every count can take `amount` more without passing the
    /// largest representable count.
    pub open spec fn can_refill(self, amount: u64) -> bool {
        forall|category: Category| #[trigger] self.count_of(category) + amount <= u64::MAX
    }

    /// The starting state: the given counts, taken as they are.
    pub fn initialize(chocolate_bars: u64, water_bottles: u64, chips_packets: u64) -> (items:
        MachineItems)
        ensures
            items.count_of(Category::ChocolateBar) == chocolate_bars,
            items.count_of(Category::WaterBottle) == water_bottles,
            items.count_of(Category::ChipsPacket) == chips_packets,
    {
        MachineItems { chocolate_bars, water_bottles, chips_packets }
    }

    /// The count of one category.
    pub fn count(&self, category: Category) -> (count: u64)
        ensures
            count == self.count_of(category),
    {
        match category {
            Category::ChocolateBar => self.chocolate_bars,
            Category::WaterBottle => self.water_bottles,
            Category::ChipsPacket => self.chips_packets,
        }
    }

    /// Takes `amount` items of one category and returns how many are left
    /// of it. Where the machine holds fewer than `amount`, nothing is taken.
    pub fn dispense(&mut self, category: Category, amount: u64) -> (result: Result<
        u64,
        ContractError,
    >)
        ensures
            match result {
                Ok(left) => {
                    &&& amount <= old(self).count_of(category)
                    &&& left == old(self).count_of(category) - amount
                    &&& *final(self) == old(self).with_count(category, left)
                    &&& forall|other: Category| #[trigger]
                        final(self).count_of(other) == if other == category {
                            left
                        } else {
                            old(self).count_of(other)
                        }
                },
                Err(ContractError::NoSnackLeft { category: text }) => {
                    &&& amount > old(self).count_of(category)
                    &&& text@ == category.plural_text()
                    &&& *final(self) == *old(self)
                },
                Err(_) => false,
            },
    {
        let held = self.count(category);
        if amount > held {
            return Err(ContractError::NoSnackLeft { category: category.plural().to_owned() });
        }
        let left = held - amount;
        match category {
            Category::ChocolateBar => {
                self.chocolate_bars = left;
            },
            Category::WaterBottle => {
                self.water_bottles = left;
            },
            Category::ChipsPacket => {
                self.chips_packets = left;
            },
        }
        Ok(left)
    }

    /// Adds `amount` items to every category. Where some count cannot take
    /// them, no count changes.
    pub fn refill(&mut self, amount: u64) -> (result: Result<(), ContractError>)
        ensures
            match result {
                Ok(_) => {
                    &&& old(self).can_refill(amount)
                    &&& *final(self) == old(self).raised_by(amount)
                    &&& forall|category: Category| #[trigger]
                        final(self).count_of(category) == old(self).count_of(category) + amount
                },
                Err(ContractError::TooBigRefill {  }) => {
                    &&& !old(self).can_refill(amount)
                    &&& *final(self) == *old(self)
                },
                Err(_) => false,
            },
    {
        let chocolate_bars = self.chocolate_bars.checked_add(amount);
        let water_bottles = self.water_bottles.checked_add(amount);
        let chips_packets = self.chips_packets.checked_add(amount);
        match (chocolate_bars, water_bottles, chips_packets) {
            (Some(chocolate_bars), Some(water_bottles), Some(chips_packets)) => {
                assert(old(self).can_refill(amount)) by {
                    assert forall|category: Category| #[trigger]
                        old(self).count_of(category) + amount <= u64::MAX by {
                        match category {
                            Category::ChocolateBar => {},
                            Category::WaterBottle => {},
                            Category::ChipsPacket => {},
                        }
                    }
                }
                self.chocolate_bars = chocolate_bars;
                self.water_bottles = water_bottles;
                self.chips_packets = chips_packets;
                Ok(())
            },
            _ => {
                assert(!old(self).can_refill(amount)) by {
                    if chocolate_bars is None {
                        assert(old(self).count_of(Category::ChocolateBar) + amount > u64::MAX);
                    } else if water_bottles is None {
                        assert(old(self).count_of(Category::WaterBottle) + amount > u64::MAX);
                    } else {
                        assert(old(self).count_of(Category::ChipsPacket) + amount > u64::MAX);
                    }
                }
                Err(ContractError::TooBigRefill {  })
            },
        }
    }
}

/// Each category is found again by its own name.
pub proof fn lemma_named_finds_each_category(category: Category)
    ensures
        Category::named(category.name_text()) == Some(category),
{
    reveal_strlit("chocolate bar");
    reveal_strlit("water bottle");
    reveal_strlit("chips packet");
    assert("chocolate bar"@.len() == 13);
    assert("water bottle"@.len() == 12);
    assert("water bottle"@[0] == 'w');
    assert("chips packet"@[0] == 'c');
}

} // verus!
