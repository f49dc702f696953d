use crate::channel_map::ChannelType;
use vstd::prelude::*;

verus! {

/// Number of fields, and so of columns in every table.
pub const FIELD_COUNT: usize = 21;

/// The output columns, in canonical order: declaration order.
#[derive(Debug, Clone, Copy, Hash, PartialEq, Eq, PartialOrd, Ord, Structural)]
pub enum ChannelDataField {
    Cebra0Energy,
    Cebra1Energy,
    Cebra2Energy,
    Cebra3Energy,
    Cebra4Energy,
    Cebra5Energy,
    Cebra6Energy,

    Cebra0Short,
    Cebra1Short,
    Cebra2Short,
    Cebra3Short,
    Cebra4Short,
    Cebra5Short,
    Cebra6Short,

    Cebra0Time,
    Cebra1Time,
    Cebra2Time,
    Cebra3Time,
    Cebra4Time,
    Cebra5Time,
    Cebra6Time,
}

/// Which of a hit's three values a field holds.
#[derive(Debug, Clone, Copy, PartialEq, Eq, Structural)]
pub enum FieldKind {
    Energy,
    Short,
    Time,
}

impl ChannelDataField {
    /// The channel type whose hits are written to this field.
    pub open spec fn channel_type(self) -> ChannelType {
        match self {
            ChannelDataField::Cebra0Energy
            | ChannelDataField::Cebra0Short
            | ChannelDataField::Cebra0Time => ChannelType::Cebra0,
            ChannelDataField::Cebra1Energy
            | ChannelDataField::Cebra1Short
            | ChannelDataField::Cebra1Time => ChannelType::Cebra1,
            ChannelDataField::Cebra2Energy
            | ChannelDataField::Cebra2Short
            | ChannelDataField::Cebra2Time => ChannelType::Cebra2,
            ChannelDataField::Cebra3Energy
            | ChannelDataField::Cebra3Short
            | ChannelDataField::Cebra3Time => ChannelType::Cebra3,
            ChannelDataField::Cebra4Energy
            | ChannelDataField::Cebra4Short
            | ChannelDataField::Cebra4Time => ChannelType::Cebra4,
            ChannelDataField::Cebra5Energy
            | ChannelDataField::Cebra5Short
            | ChannelDataField::Cebra5Time => ChannelType::Cebra5,
            ChannelDataField::Cebra6Energy
            | ChannelDataField::Cebra6Short
            | ChannelDataField::Cebra6Time => ChannelType::Cebra6,
        }
    }

    /// The value of a hit that this field holds.
    pub open spec fn kind(self) -> FieldKind {
        match self {
            ChannelDataField::Cebra0Energy
            | ChannelDataField::Cebra1Energy
            | ChannelDataField::Cebra2Energy
            | ChannelDataField::Cebra3Energy
            | ChannelDataField::Cebra4Energy
            | ChannelDataField::Cebra5Energy
            | ChannelDataField::Cebra6Energy => FieldKind::Energy,
            ChannelDataField::Cebra0Short
            | ChannelDataField::Cebra1Short
            | ChannelDataField::Cebra2Short
            | ChannelDataField::Cebra3Short
            | ChannelDataField::Cebra4Short
            | ChannelDataField::Cebra5Short
            | ChannelDataField::Cebra6Short => FieldKind::Short,
            ChannelDataField::Cebra0Time
            | ChannelDataField::Cebra1Time
            | ChannelDataField::Cebra2Time
            | ChannelDataField::Cebra3Time
            | ChannelDataField::Cebra4Time
            | ChannelDataField::Cebra5Time
            | ChannelDataField::Cebra6Time => FieldKind::Time,
        }
    }

    /// Position of this field in the canonical order.
    pub open spec fn spec_index(self) -> int {
        match self {
            ChannelDataField::Cebra0Energy => 0,
            ChannelDataField::Cebra1Energy => 1,
            ChannelDataField::Cebra2Energy => 2,
            ChannelDataField::Cebra3Energy => 3,
            ChannelDataField::Cebra4Energy => 4,
            ChannelDataField::Cebra5Energy => 5,
            ChannelDataField::Cebra6Energy => 6,
            ChannelDataField::Cebra0Short => 7,
            ChannelDataField::Cebra1Short => 8,
            ChannelDataField::Cebra2Short => 9,
            ChannelDataField::Cebra3Short => 10,
            ChannelDataField::Cebra4Short => 11,
            ChannelDataField::Cebra5Short => 12,
            ChannelDataField::Cebra6Short => 13,
            ChannelDataField::Cebra0Time => 14,
            ChannelDataField::Cebra1Time => 15,
            ChannelDataField::Cebra2Time => 16,
            ChannelDataField::Cebra3Time => 17,
            ChannelDataField::Cebra4Time => 18,
            ChannelDataField::Cebra5Time => 19,
            ChannelDataField::Cebra6Time => 20,
        }
    }

    /// All fields in canonical order.
    pub open spec fn fields() -> Seq<ChannelDataField> {
        seq![
            ChannelDataField::Cebra0Energy,
            ChannelDataField::Cebra1Energy,
            ChannelDataField::Cebra2Energy,
            ChannelDataField::Cebra3Energy,
            ChannelDataField::Cebra4Energy,
            ChannelDataField::Cebra5Energy,
            ChannelDataField::Cebra6Energy,
            ChannelDataField::Cebra0Short,
            ChannelDataField::Cebra1Short,
            ChannelDataField::Cebra2Short,
            ChannelDataField::Cebra3Short,
            ChannelDataField::Cebra4Short,
            ChannelDataField::Cebra5Short,
            ChannelDataField::Cebra6Short,
            ChannelDataField::Cebra0Time,
            ChannelDataField::Cebra1Time,
            ChannelDataField::Cebra2Time,
            ChannelDataField::Cebra3Time,
            ChannelDataField::Cebra4Time,
            ChannelDataField::Cebra5Time,
            ChannelDataField::Cebra6Time,
        ]
    }

    /// The label of this field's column.
    pub open spec fn spec_name(self) -> Seq<char> {
        match self {
            ChannelDataField::Cebra0Energy => "Cebra0Energy"@,
            ChannelDataField::Cebra1Energy => "Cebra1Energy"@,
            ChannelDataField::Cebra2Energy => "Cebra2Energy"@,
            ChannelDataField::Cebra3Energy => "Cebra3Energy"@,
            ChannelDataField::Cebra4Energy => "Cebra4Energy"@,
            ChannelDataField::Cebra5Energy => "Cebra5Energy"@,
            ChannelDataField::Cebra6Energy => "Cebra6Energy"@,
            ChannelDataField::Cebra0Short => "Cebra0Short"@,
            ChannelDataField::Cebra1Short => "Cebra1Short"@,
            ChannelDataField::Cebra2Short => "Cebra2Short"@,
            ChannelDataField::Cebra3Short => "Cebra3Short"@,
            ChannelDataField::Cebra4Short => "Cebra4Short"@,
            ChannelDataField::Cebra5Short => "Cebra5Short"@,
            ChannelDataField::Cebra6Short => "Cebra6Short"@,
            ChannelDataField::Cebra0Time => "Cebra0Time"@,
            ChannelDataField::Cebra1Time => "Cebra1Time"@,
            ChannelDataField::Cebra2Time => "Cebra2Time"@,
            ChannelDataField::Cebra3Time => "Cebra3Time"@,
            ChannelDataField::Cebra4Time => "Cebra4Time"@,
            ChannelDataField::Cebra5Time => "Cebra5Time"@,
            ChannelDataField::Cebra6Time => "Cebra6Time"@,
        }
    }

    /// Position of this field in the canonical order.
    pub fn index(&self) -> (index: usize)
        ensures
            index == self.spec_index(),
            index < FIELD_COUNT,
    {
        match self {
            ChannelDataField::Cebra0Energy => 0,
            ChannelDataField::Cebra1Energy => 1,
            ChannelDataField::Cebra2Energy => 2,
            ChannelDataField::Cebra3Energy => 3,
            ChannelDataField::Cebra4Energy => 4,
            ChannelDataField::Cebra5Energy => 5,
            ChannelDataField::Cebra6Energy => 6,
            ChannelDataField::Cebra0Short => 7,
            ChannelDataField::Cebra1Short => 8,
            ChannelDataField::Cebra2Short => 9,
            ChannelDataField::Cebra3Short => 10,
            ChannelDataField::Cebra4Short => 11,
            ChannelDataField::Cebra5Short => 12,
            ChannelDataField::Cebra6Short => 13,
            ChannelDataField::Cebra0Time => 14,
            ChannelDataField::Cebra1Time => 15,
            ChannelDataField::Cebra2Time => 16,
            ChannelDataField::Cebra3Time => 17,
            ChannelDataField::Cebra4Time => 18,
            ChannelDataField::Cebra5Time => 19,
            ChannelDataField::Cebra6Time => 20,
        }
    }

    /// The label of this field's column: the variant's own name.
    pub fn name(&self) -> (name: &'static str)
        ensures
            name@ == self.spec_name(),
    {
        match self {
            ChannelDataField::Cebra0Energy => "Cebra0Energy",
            ChannelDataField::Cebra1Energy => "Cebra1Energy",
            ChannelDataField::Cebra2Energy => "Cebra2Energy",
            ChannelDataField::Cebra3Energy => "Cebra3Energy",
            ChannelDataField::Cebra4Energy => "Cebra4Energy",
            ChannelDataField::Cebra5Energy => "Cebra5Energy",
            ChannelDataField::Cebra6Energy => "Cebra6Energy",
            ChannelDataField::Cebra0Short => "Cebra0Short",
            ChannelDataField::Cebra1Short => "Cebra1Short",
            ChannelDataField::Cebra2Short => "Cebra2Short",
            ChannelDataField::Cebra3Short => "Cebra3Short",
            ChannelDataField::Cebra4Short => "Cebra4Short",
            ChannelDataField::Cebra5Short => "Cebra5Short",
            ChannelDataField::Cebra6Short => "Cebra6Short",
            ChannelDataField::Cebra0Time => "Cebra0Time",
            ChannelDataField::Cebra1Time => "Cebra1Time",
            ChannelDataField::Cebra2Time => "Cebra2Time",
            ChannelDataField::Cebra3Time => "Cebra3Time",
            ChannelDataField::Cebra4Time => "Cebra4Time",
            ChannelDataField::Cebra5Time => "Cebra5Time",
            ChannelDataField::Cebra6Time => "Cebra6Time",
        }
    }

    /// Returns all fields in canonical order.
    pub fn get_field_vec() -> (fields: Vec<ChannelDataField>)
        ensures
            fields@ == Self::fields(),
            fields@.len() == FIELD_COUNT,
    {
        let fields = vec![
            ChannelDataField::Cebra0Energy,
            ChannelDataField::Cebra1Energy,
            ChannelDataField::Cebra2Energy,
            ChannelDataField::Cebra3Energy,
            ChannelDataField::Cebra4Energy,
            ChannelDataField::Cebra5Energy,
            ChannelDataField::Cebra6Energy,
            ChannelDataField::Cebra0Short,
            ChannelDataField::Cebra1Short,
            ChannelDataField::Cebra2Short,
            ChannelDataField::Cebra3Short,
            ChannelDataField::Cebra4Short,
            ChannelDataField::Cebra5Short,
            ChannelDataField::Cebra6Short,
            ChannelDataField::Cebra0Time,
            ChannelDataField::Cebra1Time,
            ChannelDataField::Cebra2Time,
            ChannelDataField::Cebra3Time,
            ChannelDataField::Cebra4Time,
            ChannelDataField::Cebra5Time,
            ChannelDataField::Cebra6Time,
        ];
        assert(fields@ =~= Self::fields());
        fields
    }

    /// The energy, short-gate and time fields of `channel_type`, or `None`
    /// where no column is kept for it.
    pub fn of_channel(channel_type: ChannelType) -> (targets: Option<
        (ChannelDataField, ChannelDataField, ChannelDataField),
    >)
        ensures
            match targets {
                Some((energy, short, time)) => {
                    &&& energy.channel_type() == channel_type
                    &&& energy.kind() == FieldKind::Energy
                    &&& short.channel_type() == channel_type
                    &&& short.kind() == FieldKind::Short
                    &&& time.channel_type() == channel_type
                    &&& time.kind() == FieldKind::Time
                },
                None => forall|field: ChannelDataField| #[trigger]
                    field.channel_type() != channel_type,
            },
    {
        match channel_type {
            ChannelType::Cebra0 => Some(
                (
                    ChannelDataField::Cebra0Energy,
                    ChannelDataField::Cebra0Short,
                    ChannelDataField::Cebra0Time,
                ),
            ),
            ChannelType::Cebra1 => Some(
                (
                    ChannelDataField::Cebra1Energy,
                    ChannelDataField::Cebra1Short,
                    ChannelDataField::Cebra1Time,
                ),
            ),
            ChannelType::Cebra2 => Some(
                (
                    ChannelDataField::Cebra2Energy,
                    ChannelDataField::Cebra2Short,
                    ChannelDataField::Cebra2Time,
                ),
            ),
            ChannelType::Cebra3 => Some(
                (
                    ChannelDataField::Cebra3Energy,
                    ChannelDataField::Cebra3Short,
                    ChannelDataField::Cebra3Time,
                ),
            ),
            ChannelType::Cebra4 => Some(
                (
                    ChannelDataField::Cebra4Energy,
                    ChannelDataField::Cebra4Short,
                    ChannelDataField::Cebra4Time,
                ),
            ),
            ChannelType::Cebra5 => Some(
                (
                    ChannelDataField::Cebra5Energy,
                    ChannelDataField::Cebra5Short,
                    ChannelDataField::Cebra5Time,
                ),
            ),
            ChannelType::Cebra6 => Some(
                (
                    ChannelDataField::Cebra6Energy,
                    ChannelDataField::Cebra6Short,
                    ChannelDataField::Cebra6Time,
                ),
            ),
            _ => None,
        }
    }

    /// The canonical order lists every field once, at its own position.
    pub proof fn lemma_fields_canonical()
        ensures
            Self::fields().len() == FIELD_COUNT,
            forall|field: ChannelDataField|
                0 <= #[trigger] field.spec_index() < FIELD_COUNT && Self::fields()[field.spec_index()]
                    == field,
            forall|i: int|
                0 <= i < FIELD_COUNT ==> (#[trigger] Self::fields()[i]).spec_index() == i,
    {
    }

    /// A channel type and a kind name at most one field.
    pub proof fn lemma_field_by_channel_and_kind(a: ChannelDataField, b: ChannelDataField)
        requires
            a.channel_type() == b.channel_type(),
            a.kind() == b.kind(),
        ensures
            a == b,
    {
    }
}

} // verus!
