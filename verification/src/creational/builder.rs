//! Builder: a PC is assembled part by part; each purchase is checked for
//! compatibility with what is already on the bench, and the final build
//! succeeds exactly when every required part is present.

use vstd::prelude::*;
use vstd::string::StringExecFns;

verus! {

pub struct Processor {
    pub socket: String,
    pub series: String,
    pub cores: u8,
    pub threads: u16,
    pub tdp: u16,
}

impl Clone for Processor {
    fn clone(&self) -> (r: Self)
        ensures
            r == *self,
    {
        Processor {
            socket: self.socket.clone(),
            series: self.series.clone(),
            cores: self.cores,
            threads: self.threads,
            tdp: self.tdp,
        }
    }
}

pub struct Motherboard {
    pub socket: String,
    pub memory_type: String,
    pub storage_type: Vec<String>,
    pub pcie: String,
}

impl Clone for Motherboard {
    fn clone(&self) -> (r: Self)
        ensures
            r.socket == self.socket,
            r.memory_type == self.memory_type,
            r.storage_type@ == self.storage_type@,
            r.pcie == self.pcie,
    {
        let mut storage_type: Vec<String> = Vec::new();
        let n = self.storage_type.len();
        let mut i: usize = 0;
        while i < n
            invariant
                n == self.storage_type@.len(),
                i <= n,
                storage_type@ == self.storage_type@.take(i as int),
            decreases n - i,
        {
            storage_type.push(self.storage_type[i].clone());
            proof {
                assert(storage_type@ =~= self.storage_type@.take(i + 1));
            }
            i = i + 1;
        }
        proof {
            assert(self.storage_type@.take(n as int) =~= self.storage_type@);
        }
        Motherboard {
            socket: self.socket.clone(),
            memory_type: self.memory_type.clone(),
            storage_type,
            pcie: self.pcie.clone(),
        }
    }
}

pub struct GraphicCard {
    pub socket: String,
    pub memory: u32,
    pub tdp: u16,
}

impl Clone for GraphicCard {
    fn clone(&self) -> (r: Self)
        ensures
            r == *self,
    {
        GraphicCard { socket: self.socket.clone(), memory: self.memory, tdp: self.tdp }
    }
}

pub struct Memory {
    pub socket: String,
    pub capacity: u32,
}

impl Clone for Memory {
    fn clone(&self) -> (r: Self)
        ensures
            r == *self,
    {
        Memory { socket: self.socket.clone(), capacity: self.capacity }
    }
}

pub struct Storage {
    pub socket: String,
}

impl Clone for Storage {
    fn clone(&self) -> (r: Self)
        ensures
            r == *self,
    {
        Storage { socket: self.socket.clone() }
    }
}

pub struct PowerSupply {
    pub capacity: u32,
}

impl Clone for PowerSupply {
    fn clone(&self) -> (r: Self)
        ensures
            r == *self,
    {
        PowerSupply { capacity: self.capacity }
    }
}

pub struct PC {
    pub processor: Processor,
    pub motherboard: Motherboard,
    pub graphic_card: GraphicCard,
    pub memory: Memory,
    pub storage: Storage,
    pub power_supply: PowerSupply,
}

/// Whether some entry of `v` reads exactly `s`.
pub open spec fn contains_text(v: Seq<String>, s: Seq<char>) -> bool {
    exists|i: int| 0 <= i < v.len() && v[i]@ == s
}

fn contains_socket(v: &Vec<String>, s: &String) -> (r: bool)
    ensures
        r == contains_text(v@, s@),
{
    let n = v.len();
    let mut i: usize = 0;
    while i < n
        invariant
            n == v@.len(),
            i <= n,
            forall|j: int| 0 <= j < i ==> v@[j]@ != s@,
        decreases n - i,
    {
        if v[i] == *s {
            return true;
        }
        i = i + 1;
    }
    false
}

pub struct PCBuilder {
    pub processor: Option<Processor>,
    pub motherboard: Option<Motherboard>,
    pub graphic_card: Option<GraphicCard>,
    pub memory: Option<Memory>,
    pub storage: Option<Storage>,
    pub power_supply: Option<PowerSupply>,
}

impl PCBuilder {
    /// A processor fits unless a motherboard on the bench has another socket.
    pub open spec fn processor_fits(&self, p: Processor) -> bool {
        match self.motherboard {
            Some(m) => m.socket@ == p.socket@,
            None => true,
        }
    }

    /// A motherboard fits when its socket matches the processor on the
    /// bench, its memory type matches the memory, and the storage already
    /// bought plugs into one of its storage interfaces.
    pub open spec fn motherboard_fits(&self, m: Motherboard) -> bool {
        &&& (match self.processor {
            Some(p) => p.socket@ == m.socket@,
            None => true,
        })
        &&& (match self.memory {
            Some(r) => r.socket@ == m.memory_type@,
            None => true,
        })
        &&& (match self.storage {
            Some(s) => contains_text(m.storage_type@, s.socket@),
            None => true,
        })
    }

    /// Memory fits unless a motherboard on the bench wants another type.
    pub open spec fn memory_fits(&self, r: Memory) -> bool {
        match self.motherboard {
            Some(m) => m.memory_type@ == r.socket@,
            None => true,
        }
    }

    /// Storage fits unless no interface of the motherboard takes it.
    pub open spec fn storage_fits(&self, s: Storage) -> bool {
        match self.motherboard {
            Some(m) => contains_text(m.storage_type@, s.socket@),
            None => true,
        }
    }

    /// Every required part is on the bench.
    pub open spec fn complete(&self) -> bool {
        &&& self.processor is Some
        &&& self.motherboard is Some
        &&& self.graphic_card is Some
        &&& self.memory is Some
        &&& self.storage is Some
        &&& self.power_supply is Some
    }

    pub fn new_builder() -> (r: PCBuilder)
        ensures
            r.processor is None,
            r.motherboard is None,
            r.graphic_card is None,
            r.memory is None,
            r.storage is None,
            r.power_supply is None,
    {
        PCBuilder {
            processor: None,
            motherboard: None,
            graphic_card: None,
            memory: None,
            storage: None,
            power_supply: None,
        }
    }

    /// Installs the processor when it fits; an incompatible one leaves the
    /// bench untouched and is reported with a `false` result.
    pub fn buy_processor(&mut self, processor: Processor) -> (r: bool)
        ensures
            r == old(self).processor_fits(processor),
            r ==> *final(self) == (PCBuilder { processor: Some(processor), ..*old(self) }),
            !r ==> *final(self) == *old(self),
    {
        if self.motherboard.is_some() {
            if !(self.motherboard.as_ref().unwrap().socket == processor.socket) {
                return false;
            }
        }
        self.processor = Some(processor);
        true
    }

    pub fn sell_processor(&mut self)
        ensures
            *final(self) == (PCBuilder { processor: None, ..*old(self) }),
    {
        self.processor = None;
    }

    /// Installs the motherboard when everything on the bench fits it.
    pub fn buy_motherboard(&mut self, motherboard: Motherboard) -> (r: bool)
        ensures
            r == old(self).motherboard_fits(motherboard),
            r ==> *final(self) == (PCBuilder { motherboard: Some(motherboard), ..*old(self) }),
            !r ==> *final(self) == *old(self),
    {
        if self.processor.is_some() {
            if !(self.processor.as_ref().unwrap().socket == motherboard.socket) {
                return false;
            }
        }
        if self.memory.is_some() {
            if !(self.memory.as_ref().unwrap().socket == motherboard.memory_type) {
                return false;
            }
        }
        if self.storage.is_some() {
            let skt = &self.storage.as_ref().unwrap().socket;
            if !contains_socket(&motherboard.storage_type, skt) {
                return false;
            }
        }
        self.motherboard = Some(motherboard);
        true
    }

    pub fn sell_motherboard(&mut self)
        ensures
            *final(self) == (PCBuilder { motherboard: None, ..*old(self) }),
    {
        self.motherboard = None;
    }

    /// Any graphics card fits.
    pub fn buy_graphic_card(&mut self, vga: GraphicCard) -> (r: bool)
        ensures
            r,
            *final(self) == (PCBuilder { graphic_card: Some(vga), ..*old(self) }),
    {
        self.graphic_card = Some(vga);
        true
    }

    pub fn sell_graphic_card(&mut self)
        ensures
            *final(self) == (PCBuilder { graphic_card: None, ..*old(self) }),
    {
        self.graphic_card = None;
    }

    /// Installs the memory when it fits the motherboard on the bench.
    pub fn buy_memory(&mut self, ram: Memory) -> (r: bool)
        ensures
            r == old(self).memory_fits(ram),
            r ==> *final(self) == (PCBuilder { memory: Some(ram), ..*old(self) }),
            !r ==> *final(self) == *old(self),
    {
        if self.motherboard.is_some() {
            if !(self.motherboard.as_ref().unwrap().memory_type == ram.socket) {
                return false;
            }
        }
        self.memory = Some(ram);
        true
    }

    pub fn sell_memory(&mut self)
        ensures
            *final(self) == (PCBuilder { memory: None, ..*old(self) }),
    {
        self.memory = None;
    }

    /// Installs the storage when the motherboard on the bench can take it.
    pub fn buy_storage(&mut self, storage: Storage) -> (r: bool)
        ensures
            r == old(self).storage_fits(storage),
            r ==> *final(self) == (PCBuilder { storage: Some(storage), ..*old(self) }),
            !r ==> *final(self) == *old(self),
    {
        if self.motherboard.is_some() {
            let types = &self.motherboard.as_ref().unwrap().storage_type;
            if !contains_socket(types, &storage.socket) {
                return false;
            }
        }
        self.storage = Some(storage);
        true
    }

    pub fn sell_storage(&mut self)
        ensures
            *final(self) == (PCBuilder { storage: None, ..*old(self) }),
    {
        self.storage = None;
    }

    /// Any power supply fits.
    pub fn buy_power_supply(&mut self, psu: PowerSupply) -> (r: bool)
        ensures
            r,
            *final(self) == (PCBuilder { power_supply: Some(psu), ..*old(self) }),
    {
        self.power_supply = Some(psu);
        true
    }

    pub fn sell_power_supply(&mut self)
        ensures
            *final(self) == (PCBuilder { power_supply: None, ..*old(self) }),
    {
        self.power_supply = None;
    }

    /// Clears the bench completely.
    pub fn sell_all_parts(&mut self)
        ensures
            final(self).processor is None,
            final(self).motherboard is None,
            final(self).graphic_card is None,
            final(self).memory is None,
            final(self).storage is None,
            final(self).power_supply is None,
    {
        self.processor = None;
        self.motherboard = None;
        self.graphic_card = None;
        self.memory = None;
        self.storage = None;
        self.power_supply = None;
    }

    /// Builds the PC from the parts on the bench: succeeds exactly when all
    /// six parts are present, and the built machine carries those parts.
    pub fn build_pc(&self) -> (r: Result<PC, String>)
        ensures
            r is Ok <==> self.complete(),
            r matches Ok(pc) ==> {
                &&& pc.processor == self.processor->Some_0
                &&& pc.motherboard.socket == self.motherboard->Some_0.socket
                &&& pc.motherboard.memory_type == self.motherboard->Some_0.memory_type
                &&& pc.motherboard.storage_type@ == self.motherboard->Some_0.storage_type@
                &&& pc.motherboard.pcie == self.motherboard->Some_0.pcie
                &&& pc.graphic_card == self.graphic_card->Some_0
                &&& pc.memory == self.memory->Some_0
                &&& pc.storage == self.storage->Some_0
                &&& pc.power_supply == self.power_supply->Some_0
            },
            r matches Err(e) ==> e@
                == "This PC is still missing some required parts. Please check the parts again."@,
    {
        if self.processor.is_none() || self.motherboard.is_none() || self.graphic_card.is_none()
            || self.memory.is_none() || self.storage.is_none() || self.power_supply.is_none() {
            return Err(
                String::from_str(
                    "This PC is still missing some required parts. Please check the parts again.",
                ),
            );
        }
        let new_pc = PC {
            processor: self.processor.as_ref().unwrap().clone(),
            motherboard: self.motherboard.as_ref().unwrap().clone(),
            graphic_card: self.graphic_card.as_ref().unwrap().clone(),
            memory: self.memory.as_ref().unwrap().clone(),
            storage: self.storage.as_ref().unwrap().clone(),
            power_supply: self.power_supply.as_ref().unwrap().clone(),
        };
        Ok(new_pc)
    }
}

} // verus!
