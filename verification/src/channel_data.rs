use crate::channel_map::{ChannelMap, ChannelType};
use crate::compass_data::CompassData;
use crate::field::{ChannelDataField, FieldKind, FIELD_COUNT};
use vstd::prelude::*;

verus! {

/// The cell of a field that no hit of an event wrote: the bit pattern of
/// the binary64 number -1 000 000.
pub const INVALID_VALUE: u64 = 0xC12E_8480_0000_0000;

/// The value of `hit` that a field of kind `kind` holds.
pub open spec fn hit_value(hit: CompassData, kind: FieldKind) -> u64 {
    match kind {
        FieldKind::Energy => hit.energy,
        FieldKind::Short => hit.energy_short,
        FieldKind::Time => hit.timestamp,
    }
}

/// Whether `map` resolves the identifier of `hit` to `channel_type`.
pub open spec fn resolves_to(
    map: Map<u32, ChannelType>,
    hit: CompassData,
    channel_type: ChannelType,
) -> bool {
    map.contains_key(hit.uuid) && map[hit.uuid] == channel_type
}

/// The cell that `event` gives to `field`: the value of the last hit of the
/// event that resolves to the field's channel type, `INVALID_VALUE` where
/// there is none.
pub open spec fn event_value(
    event: Seq<CompassData>,
    map: Map<u32, ChannelType>,
    field: ChannelDataField,
) -> u64
    decreases event.len(),
{
    if event.len() == 0 {
        INVALID_VALUE
    } else if resolves_to(map, event.last(), field.channel_type()) {
        hit_value(event.last(), field.kind())
    } else {
        event_value(event.drop_last(), map, field)
    }
}

/// The column of `field` in the table of `events`: one cell per event, in
/// the order of the events.
pub open spec fn table_column(
    events: Seq<Seq<CompassData>>,
    map: Map<u32, ChannelType>,
    field: ChannelDataField,
) -> Seq<u64> {
    Seq::new(events.len(), |k: int| event_value(events[k], map, field))
}

/// One exported column: a field's label and its cells, one per event.
#[derive(Debug, Clone)]
pub struct Column {
    pub name: &'static str,
    pub values: Vec<u64>,
}

/// The table under construction: one column per field, one row per event.
#[derive(Debug, Clone)]
pub struct ChannelData {
    /// The columns, each at its field's position in the canonical order.
    pub fields: Vec<Vec<u64>>,
    /// Number of events appended so far.
    pub rows: usize,
}

impl ChannelData {
    /// The cells of `field`, oldest event first.
    pub open spec fn column(&self, field: ChannelDataField) -> Seq<u64> {
        self.fields@[field.spec_index()]@
    }

    /// There is one column per field, and every column has `rows` cells.
    pub open spec fn wf(&self) -> bool {
        &&& self.fields@.len() == FIELD_COUNT
        &&& forall|i: int|
            0 <= i < self.fields@.len() ==> (#[trigger] self.fields@[i])@.len() == self.rows
    }

    /// This is the table of `events`, resolved through `map`.
    pub open spec fn records(&self, events: Seq<Seq<CompassData>>, map: Map<u32, ChannelType>) -> bool {
        &&& self.wf()
        &&& self.rows == events.len()
        &&& forall|field: ChannelDataField| #[trigger]
            self.column(field) == table_column(events, map, field)
    }

    /// Tells whether there is one column per field with `rows` cells each.
    /// The fields are public, so a caller that filled them by hand can test
    /// the table before it appends to it.
    pub fn is_wf(&self) -> (ok: bool)
        ensures
            ok == self.wf(),
    {
        if self.fields.len() != FIELD_COUNT {
            return false;
        }
        let mut i: usize = 0;
        while i < self.fields.len()
            invariant
                i <= self.fields@.len(),
                forall|j: int| 0 <= j < i ==> (#[trigger] self.fields@[j])@.len() == self.rows,
            decreases self.fields@.len() - i,
        {
            if self.fields[i].len() != self.rows {
                return false;
            }
            i += 1;
        }
        true
    }

    /// Appends `INVALID_VALUE` to every column that has fewer than `rows`
    /// cells, so that the columns keep one length.
    fn push_defaults(&mut self)
        ensures
            final(self).rows == old(self).rows,
            final(self).fields@.len() == old(self).fields@.len(),
            forall|i: int|
                0 <= i < old(self).fields@.len() ==> (#[trigger] final(self).fields@[i])@ == (if old(
                    self,
                ).fields@[i]@.len() < old(self).rows {
                    old(self).fields@[i]@.push(INVALID_VALUE)
                } else {
                    old(self).fields@[i]@
                }),
    {
        let n = self.fields.len();
        let mut i: usize = 0;
        while i < n
            invariant
                i <= n,
                n == self.fields@.len(),
                n == old(self).fields@.len(),
                self.rows == old(self).rows,
                forall|j: int|
                    i <= j < n ==> (#[trigger] self.fields@[j])@ == old(self).fields@[j]@,
                forall|j: int|
                    0 <= j < i ==> (#[trigger] self.fields@[j])@ == (if old(self).fields@[j]@.len()
                        < old(self).rows {
                        old(self).fields@[j]@.push(INVALID_VALUE)
                    } else {
                        old(self).fields@[j]@
                    }),
            decreases n - i,
        {
            if self.fields[i].len() < self.rows {
                self.fields[i].push(INVALID_VALUE);
            }
            i += 1;
        }
    }

    /// Overwrites the last cell of `field` with `value`; a column without
    /// cells stays as it is.
    fn set_value(&mut self, field: &ChannelDataField, value: u64)
        ensures
            final(self).rows == old(self).rows,
            final(self).fields@.len() == old(self).fields@.len(),
            forall|i: int|
                0 <= i < old(self).fields@.len() && i != field.spec_index() ==> (
                #[trigger] final(self).fields@[i])@ == old(self).fields@[i]@,
            field.spec_index() < old(self).fields@.len() ==> final(self).column(*field) == (if old(
                self,
            ).column(*field).len() > 0 {
                old(self).column(*field).update(old(self).column(*field).len() - 1, value)
            } else {
                old(self).column(*field)
            }),
    {
        let i = field.index();
        if i < self.fields.len() {
            let n = self.fields[i].len();
            if n > 0 {
                self.fields[i][n - 1] = value;
            }
        }
    }

    /// Takes in one event: every column gets one more cell, which holds the
    /// value of the last hit of `event` that `map` resolves to the column's
    /// channel type, and `INVALID_VALUE` where no hit does. Hits that `map`
    /// does not know, or resolves to a channel type without columns, are
    /// passed over.
    pub fn append_event(&mut self, event: Vec<CompassData>, map: &ChannelMap)
        requires
            old(self).wf(),
            old(self).rows < usize::MAX,
        ensures
            final(self).wf(),
            final(self).rows == old(self).rows + 1,
            forall|field: ChannelDataField| #[trigger]
                final(self).column(field) == old(self).column(field).push(
                    event_value(event@, map@, field),
                ),
            forall|events: Seq<Seq<CompassData>>| #[trigger]
                old(self).records(events, map@) ==> final(self).records(events.push(event@), map@),
    {
        self.rows += 1;
        self.push_defaults();

        let mut i: usize = 0;
        while i < event.len()
            invariant
                i <= event.len(),
                old(self).wf(),
                self.rows == old(self).rows + 1,
                self.fields@.len() == FIELD_COUNT,
                forall|field: ChannelDataField| #[trigger]
                    self.column(field) == old(self).column(field).push(
                        event_value(event@.take(i as int), map@, field),
                    ),
            decreases event.len() - i,
        {
            let hit = event[i];
            let ghost before = *self;
            let ghost seen = event@.take(i as int);
            proof {
                assert(event@.take(i + 1).drop_last() =~= seen);
                assert(event@.take(i + 1).last() == hit);
            }
            // A hit that the map does not know, or of a device without columns, has no targets.
            let targets = match map.get_channel_data(&hit.uuid) {
                Some(channel_type) => ChannelDataField::of_channel(channel_type),
                None => None,
            };
            if let Some((energy, short, time)) = targets {
                self.set_value(&energy, hit.energy);
                self.set_value(&short, hit.energy_short);
                self.set_value(&time, hit.timestamp);
                proof {
                    assert forall|field: ChannelDataField| #[trigger]
                        self.column(field) == old(self).column(field).push(
                            event_value(event@.take(i + 1), map@, field),
                        ) by {
                        let was = old(self).column(field).push(event_value(seen, map@, field));
                        assert(before.column(field) == was);
                        if field.channel_type() == energy.channel_type() {
                            match field.kind() {
                                FieldKind::Energy => {
                                    ChannelDataField::lemma_field_by_channel_and_kind(field, energy)
                                },
                                FieldKind::Short => {
                                    ChannelDataField::lemma_field_by_channel_and_kind(field, short)
                                },
                                FieldKind::Time => {
                                    ChannelDataField::lemma_field_by_channel_and_kind(field, time)
                                },
                            }
                            assert(self.column(field) =~= was.update(
                                was.len() - 1,
                                hit_value(hit, field.kind()),
                            ));
                            assert(self.column(field) =~= old(self).column(field).push(
                                hit_value(hit, field.kind()),
                            ));
                        }
                    }
                }
            }
            i += 1;
        }
        proof {
            assert(event@.take(event@.len() as int) =~= event@);
            ChannelDataField::lemma_fields_canonical();
            assert forall|j: int| 0 <= j < self.fields@.len() implies (#[trigger] self.fields@[j])@.len()
                == self.rows by {
                let field = ChannelDataField::fields()[j];
                assert(self.column(field).len() == self.rows);
            }
            assert forall|events: Seq<Seq<CompassData>>| #[trigger]
                old(self).records(events, map@) implies self.records(events.push(event@), map@) by {
                assert forall|field: ChannelDataField| #[trigger]
                    self.column(field) == table_column(events.push(event@), map@, field) by {
                    assert(old(self).column(field) == table_column(events, map@, field));
                    assert(table_column(events.push(event@), map@, field) =~= table_column(
                        events,
                        map@,
                        field,
                    ).push(event_value(event@, map@, field)));
                }
            }
        }
    }

    /// Hands the columns out, each with its field's label, in the canonical
    /// order of the fields. The table is consumed: the cells are moved, not
    /// copied.
    pub fn convert_to_series(self) -> (series: Vec<Column>)
        requires
            self.wf(),
        ensures
            series@.len() == FIELD_COUNT,
            forall|i: int|
                0 <= i < FIELD_COUNT ==> {
                    &&& (#[trigger] series@[i]).name@ == ChannelDataField::fields()[i].spec_name()
                    &&& series@[i].values@ == self.column(ChannelDataField::fields()[i])
                    &&& series@[i].values@.len() == self.rows
                },
    {
        let fields = ChannelDataField::get_field_vec();
        let mut columns = self.fields;
        let mut series: Vec<Column> = Vec::new();
        proof {
            ChannelDataField::lemma_fields_canonical();
        }
        let mut i: usize = 0;
        while i < fields.len()
            invariant
                i <= fields@.len(),
                fields@ == ChannelDataField::fields(),
                fields@.len() == FIELD_COUNT,
                columns@.len() == FIELD_COUNT,
                self.wf(),
                series@.len() == i,
                forall|j: int| i <= j < FIELD_COUNT ==> (#[trigger] columns@[j])@ == self.fields@[j]@,
                forall|j: int|
                    0 <= j < i ==> {
                        &&& (#[trigger] series@[j]).name@ == ChannelDataField::fields()[j].spec_name()
                        &&& series@[j].values@ == self.column(ChannelDataField::fields()[j])
                        &&& series@[j].values@.len() == self.rows
                    },
            decreases fields@.len() - i,
        {
            let mut values: Vec<u64> = Vec::new();
            core::mem::swap(&mut values, &mut columns[i]);
            series.push(Column { name: fields[i].name(), values });
            i += 1;
        }
        series
    }
}

impl Default for ChannelData {
    /// The table of no events: one column without cells per field.
    fn default() -> (data: ChannelData)
        ensures
            data.wf(),
            data.rows == 0,
            forall|field: ChannelDataField| #[trigger] data.column(field) == Seq::<u64>::empty(),
            forall|map: Map<u32, ChannelType>| #[trigger]
                data.records(Seq::<Seq<CompassData>>::empty(), map),
    {
        let fields = ChannelDataField::get_field_vec();
        let mut data = ChannelData { fields: Vec::new(), rows: 0 };
        let mut i: usize = 0;
        while i < fields.len()
            invariant
                i <= fields@.len(),
                fields@.len() == FIELD_COUNT,
                data.rows == 0,
                data.fields@.len() == i,
                forall|j: int| 0 <= j < i ==> (#[trigger] data.fields@[j])@ == Seq::<u64>::empty(),
            decreases fields@.len() - i,
        {
            data.fields.push(Vec::new());
            i += 1;
        }
        proof {
            ChannelDataField::lemma_fields_canonical();
            assert forall|map: Map<u32, ChannelType>| #[trigger]
                data.records(Seq::<Seq<CompassData>>::empty(), map) by {
                assert forall|field: ChannelDataField| #[trigger]
                    data.column(field) == table_column(Seq::<Seq<CompassData>>::empty(), map, field) by {
                    assert(data.column(field) =~= table_column(
                        Seq::<Seq<CompassData>>::empty(),
                        map,
                        field,
                    ));
                }
            }
        }
        data
    }
}

/// An event none of whose hits resolves to the channel type of `field`
/// gives the field `INVALID_VALUE`.
pub proof fn lemma_untouched_field_is_invalid(
    event: Seq<CompassData>,
    map: Map<u32, ChannelType>,
    field: ChannelDataField,
)
    requires
        forall|i: int| 0 <= i < event.len() ==> !resolves_to(map, #[trigger] event[i], field.channel_type()),
    ensures
        event_value(event, map, field) == INVALID_VALUE,
    decreases event.len(),
{
    if event.len() > 0 {
        let rest = event.drop_last();
        assert forall|i: int| 0 <= i < rest.len() implies !resolves_to(
            map,
            #[trigger] rest[i],
            field.channel_type(),
        ) by {
            assert(rest[i] == event[i]);
        }
        lemma_untouched_field_is_invalid(rest, map, field);
    }
}

/// Last write wins: where hit `j` of `event` resolves to the channel type
/// of `field` and no later hit does, the field gets the value of hit `j`,
/// whatever earlier hits held.
pub proof fn lemma_last_hit_wins(
    event: Seq<CompassData>,
    map: Map<u32, ChannelType>,
    field: ChannelDataField,
    j: int,
)
    requires
        0 <= j < event.len(),
        resolves_to(map, event[j], field.channel_type()),
        forall|i: int| j < i < event.len() ==> !resolves_to(map, #[trigger] event[i], field.channel_type()),
    ensures
        event_value(event, map, field) == hit_value(event[j], field.kind()),
    decreases event.len(),
{
    if j + 1 < event.len() {
        let rest = event.drop_last();
        assert(!resolves_to(map, event[event.len() - 1], field.channel_type()));
        assert(rest[j] == event[j]);
        assert forall|i: int| j < i < rest.len() implies !resolves_to(
            map,
            #[trigger] rest[i],
            field.channel_type(),
        ) by {
            assert(rest[i] == event[i]);
        }
        lemma_last_hit_wins(rest, map, field, j);
    }
}

/// An event whose hits `map` does not know gives every field
/// `INVALID_VALUE`.
pub proof fn lemma_unknown_hits_leave_invalid(event: Seq<CompassData>, map: Map<u32, ChannelType>)
    requires
        forall|i: int| 0 <= i < event.len() ==> !map.contains_key(#[trigger] event[i].uuid),
    ensures
        forall|field: ChannelDataField| #[trigger] event_value(event, map, field) == INVALID_VALUE,
{
    assert forall|field: ChannelDataField| #[trigger]
        event_value(event, map, field) == INVALID_VALUE by {
        assert forall|i: int| 0 <= i < event.len() implies !resolves_to(
            map,
            #[trigger] event[i],
            field.channel_type(),
        ) by {
            assert(!map.contains_key(event[i].uuid));
        }
        lemma_untouched_field_is_invalid(event, map, field);
    }
}

impl ChannelData {
    /// After any number of events every column has exactly one cell per
    /// event, and `rows` is the number of events.
    pub proof fn lemma_one_cell_per_event(
        &self,
        events: Seq<Seq<CompassData>>,
        map: Map<u32, ChannelType>,
    )
        requires
            self.records(events, map),
        ensures
            self.rows == events.len(),
            forall|field: ChannelDataField| #[trigger] self.column(field).len() == events.len(),
    {
    }

    /// Row `k` of every column is the cell that event `k` gives to the
    /// column's field.
    pub proof fn lemma_row_is_event_value(
        &self,
        events: Seq<Seq<CompassData>>,
        map: Map<u32, ChannelType>,
        k: int,
    )
        requires
            self.records(events, map),
            0 <= k < events.len(),
        ensures
            forall|field: ChannelDataField| #[trigger]
                self.column(field)[k] == event_value(events[k], map, field),
    {
    }

    /// Where no hit of event `k` resolves to `channel_type`, row `k` of the
    /// three fields of `channel_type` holds `INVALID_VALUE`.
    pub proof fn lemma_silent_channel_row_is_invalid(
        &self,
        events: Seq<Seq<CompassData>>,
        map: Map<u32, ChannelType>,
        k: int,
        channel_type: ChannelType,
    )
        requires
            self.records(events, map),
            0 <= k < events.len(),
            forall|i: int|
                0 <= i < events[k].len() ==> !resolves_to(map, #[trigger] events[k][i], channel_type),
        ensures
            forall|field: ChannelDataField|
                field.channel_type() == channel_type ==> #[trigger] self.column(field)[k]
                    == INVALID_VALUE,
    {
        assert forall|field: ChannelDataField| field.channel_type() == channel_type implies #[trigger]
            self.column(field)[k] == INVALID_VALUE by {
            lemma_untouched_field_is_invalid(events[k], map, field);
        }
    }

    /// Where `map` knows no hit of event `k`, row `k` of every column holds
    /// `INVALID_VALUE`.
    pub proof fn lemma_unknown_event_row_is_invalid(
        &self,
        events: Seq<Seq<CompassData>>,
        map: Map<u32, ChannelType>,
        k: int,
    )
        requires
            self.records(events, map),
            0 <= k < events.len(),
            forall|i: int| 0 <= i < events[k].len() ==> !map.contains_key(#[trigger] events[k][i].uuid),
        ensures
            forall|field: ChannelDataField| #[trigger] self.column(field)[k] == INVALID_VALUE,
    {
        lemma_unknown_hits_leave_invalid(events[k], map);
    }
}

} // verus!
