//! The per-stream parse state: the definition table keyed by the 4-bit local
//! message type, the running timestamp, and the count of bytes consumed so
//! far. One value of this state belongs to one in-flight decode and to
//! nothing else.

use vstd::prelude::*;
use crate::fields::{FieldDefinition, FieldDefinitionList};

verus! {

/// Number of local message type slots: the local message type is a 4-bit
/// value, 0 through 15.
pub const NUM_LOCAL_MESSAGE_TYPES: usize = 16;

/// The current definition of one local message type: which global message
/// its data records stand for, the endianness of their multi-byte fields,
/// and the ordered field layout.
#[derive(Clone, Debug)]
pub struct LocalMessageDefinition {
    /// The global message number the definition record declared.
    pub global_msg_num: u16,
    /// True when multi-byte fields of this message are big-endian.
    pub is_big_endian: bool,
    /// The ordered field layout, developer fields after the plain ones.
    pub fields: FieldDefinitionList,
}

/// Mathematical model of a local message definition.
#[verifier::ext_equal]
pub struct SpecLocalDef {
    pub global_msg_num: u16,
    pub is_big_endian: bool,
    pub fields: Seq<FieldDefinition>,
}

impl View for LocalMessageDefinition {
    type V = SpecLocalDef;

    open spec fn view(&self) -> SpecLocalDef {
        SpecLocalDef {
            global_msg_num: self.global_msg_num,
            is_big_endian: self.is_big_endian,
            fields: self.fields@,
        }
    }
}

/// Mathematical model of the parse state. `bytes_read` counts from the very
/// start of the stream, header included, so it doubles as the read cursor.
#[verifier::ext_equal]
pub struct SpecState {
    pub defs: Seq<Option<SpecLocalDef>>,
    pub timestamp: u32,
    pub bytes_read: int,
}

impl SpecState {
    /// A definition table of 16 empty slots, cursor at `bytes_read`.
    pub open spec fn initial(bytes_read: int) -> SpecState {
        SpecState { defs: Seq::new(16, |i: int| None), timestamp: 0, bytes_read }
    }

    /// The model is well formed when it has exactly one slot per local
    /// message type.
    pub open spec fn wf(self) -> bool {
        self.defs.len() == 16
    }
}

/// Everything the parse of one stream needs to remember between records.
#[derive(Clone, Debug)]
pub struct FitState {
    /// The definition table: one slot per local message type.
    pub defs: Vec<Option<LocalMessageDefinition>>,
    /// The running timestamp, for compressed-timestamp records.
    pub timestamp: u32,
    /// Number of bytes consumed so far, counted from the start of the
    /// stream; used to bound the record loop against the declared size.
    pub bytes_read: usize,
}

impl View for FitState {
    type V = SpecState;

    open spec fn view(&self) -> SpecState {
        SpecState {
            defs: self.defs@.map_values(
                |d: Option<LocalMessageDefinition>|
                    match d {
                        Some(x) => Some(x@),
                        None => None,
                    },
            ),
            timestamp: self.timestamp,
            bytes_read: self.bytes_read as int,
        }
    }
}

impl FitState {
    /// A fresh parse state: every slot empty, running timestamp zero,
    /// nothing consumed.
    pub fn new() -> (r: Self)
        ensures
            r@ == SpecState::initial(0),
    {
        let mut defs: Vec<Option<LocalMessageDefinition>> = Vec::new();
        let mut i: usize = 0;
        while i < NUM_LOCAL_MESSAGE_TYPES
            invariant
                i <= 16,
                defs@.len() == i,
                forall|j: int| 0 <= j < i ==> defs@[j] is None,
            decreases 16 - i,
        {
            defs.push(None);
            i = i + 1;
        }
        let r = FitState { defs, timestamp: 0, bytes_read: 0 };
        proof {
            assert(r@.defs =~= SpecState::initial(0).defs);
        }
        r
    }

    /// Associates the given layout with a local message type, replacing in
    /// full whatever definition the slot held before.
    pub fn insert_local_msg_def(
        &mut self,
        local_msg_type: u8,
        is_big_endian: bool,
        global_msg_num: u16,
        field_defs: FieldDefinitionList,
    )
        requires
            old(self)@.wf(),
            local_msg_type < 16,
        ensures
            final(self)@.defs == old(self)@.defs.update(
                local_msg_type as int,
                Some(SpecLocalDef { global_msg_num, is_big_endian, fields: field_defs@ }),
            ),
            final(self)@.timestamp == old(self)@.timestamp,
            final(self)@.bytes_read == old(self)@.bytes_read,
            final(self)@.wf(),
    {
        let def = LocalMessageDefinition { global_msg_num, is_big_endian, fields: field_defs };
        self.defs[local_msg_type as usize] = Some(def);
        proof {
            assert(final(self)@.defs =~= old(self)@.defs.update(
                local_msg_type as int,
                Some(SpecLocalDef { global_msg_num, is_big_endian, fields: field_defs@ }),
            ));
        }
    }

    /// The current definition for a local message type, or `None` when no
    /// definition record for that slot has been seen.
    pub fn retrieve_msg_def(&self, local_msg_type: u8) -> (r: Option<&LocalMessageDefinition>)
        requires
            self@.wf(),
            local_msg_type < 16,
        ensures
            match r {
                Some(d) => self@.defs[local_msg_type as int] == Some(d@),
                None => self@.defs[local_msg_type as int] is None,
            },
    {
        match &self.defs[local_msg_type as usize] {
            Some(d) => Some(d),
            None => None,
        }
    }
}

} // verus!
