//! Named, frame-indexed time series.
//!
//! A [`Statistics`] value is the whole recorder: the current frame counter,
//! the registered stream names and one append-only stream of entries per
//! name. Its meaning is given by [`StatisticsModel`], and every operation is
//! specified as a function on that model.
use vstd::prelude::*;
use std::collections::VecDeque;

verus! {

/// Stable handle of one named data stream: the position at which the name
/// was registered.
#[derive(Clone, Copy, Debug, PartialEq, Eq, Structural)]
pub struct DataStreamId {
    pub id: usize,
}

/// One recorded value, tagged with the frame that was current when it was
/// reported.
#[derive(Clone, Copy, Debug)]
pub struct Entry<V> {
    pub frame: usize,
    pub value: V,
}

/// The mathematical content of a recorder.
pub struct StatisticsModel<V> {
    pub frame: usize,
    pub names: Seq<Seq<char>>,
    pub streams: Seq<Seq<Entry<V>>>,
}

/// Entries of one stream carry non-decreasing frames, none past `frame`.
pub open spec fn stream_ordered<V>(s: Seq<Entry<V>>, frame: usize) -> bool {
    &&& forall|i: int, j: int| 0 <= i <= j < s.len() ==> s[i].frame <= s[j].frame
    &&& forall|i: int| 0 <= i < s.len() ==> s[i].frame <= frame
}

impl<V> StatisticsModel<V> {
    /// A recorder with no streams, at frame zero.
    pub open spec fn empty() -> Self {
        StatisticsModel { frame: 0, names: Seq::empty(), streams: Seq::empty() }
    }

    pub open spec fn wf(self) -> bool {
        &&& self.names.len() == self.streams.len()
        &&& forall|i: int, j: int|
            0 <= i < self.names.len() && 0 <= j < self.names.len() && i != j
                ==> self.names[i] != self.names[j]
        &&& forall|i: int|
            0 <= i < self.streams.len() ==> stream_ordered(#[trigger] self.streams[i], self.frame)
    }

    pub open spec fn has_name(self, name: Seq<char>) -> bool {
        exists|i: int| 0 <= i < self.names.len() && self.names[i] == name
    }

    /// The position at which `name` is registered.
    pub open spec fn id_of(self, name: Seq<char>) -> int
        recommends
            self.has_name(name),
    {
        choose|i: int| 0 <= i < self.names.len() && self.names[i] == name
    }

    /// Looks `name` up, registering it with a fresh empty stream when unseen.
    pub open spec fn get_or_create(self, name: Seq<char>) -> (Self, nat) {
        if self.has_name(name) {
            (self, self.id_of(name) as nat)
        } else {
            (
                StatisticsModel {
                    frame: self.frame,
                    names: self.names.push(name),
                    streams: self.streams.push(Seq::empty()),
                },
                self.names.len(),
            )
        }
    }

    /// Appends `(frame, value)` to stream `id`.
    pub open spec fn report(self, id: nat, value: V) -> Self
        recommends
            id < self.streams.len(),
    {
        StatisticsModel {
            streams: self.streams.update(
                id as int,
                self.streams[id as int].push(Entry { frame: self.frame, value }),
            ),
            ..self
        }
    }

    pub open spec fn report_with_name(self, name: Seq<char>, value: V) -> Self {
        let (m, id) = self.get_or_create(name);
        m.report(id, value)
    }

    /// Every stream and name dropped, frame back to zero.
    pub open spec fn restart(self) -> Self {
        Self::empty()
    }

    pub open spec fn next_frame(self) -> Self
        recommends
            self.frame < usize::MAX,
    {
        StatisticsModel { frame: (self.frame + 1) as usize, ..self }
    }

    /// `n` consecutive frame advances.
    pub open spec fn advance(self, n: nat) -> Self
        decreases n,
    {
        if n == 0 {
            self
        } else {
            self.next_frame().advance((n - 1) as nat)
        }
    }

    /// What an export holds for `name`: its entries, or nothing when the
    /// name was never registered.
    pub open spec fn exported(self, name: Seq<char>) -> Seq<Entry<V>> {
        if self.has_name(name) {
            self.streams[self.id_of(name)]
        } else {
            Seq::empty()
        }
    }
}

/// The recorder: a frame counter and one stream of entries per name.
pub struct Statistics<V> {
    frame: usize,
    names: Vec<String>,
    streams: Vec<VecDeque<Entry<V>>>,
}

impl<V> View for Statistics<V> {
    type V = StatisticsModel<V>;

    closed spec fn view(&self) -> StatisticsModel<V> {
        StatisticsModel {
            frame: self.frame,
            names: self.names@.map_values(|s: String| s@),
            streams: self.streams@.map_values(|s: VecDeque<Entry<V>>| s@),
        }
    }
}

impl<V> Statistics<V> {
    pub open spec fn wf(&self) -> bool {
        self@.wf()
    }

    pub fn new() -> (r: Self)
        ensures
            r.wf(),
            r@ == StatisticsModel::<V>::empty(),
    {
        let r = Statistics { frame: 0, names: Vec::new(), streams: Vec::new() };
        assert(r@.names =~= Seq::<Seq<char>>::empty());
        assert(r@.streams =~= Seq::<Seq<Entry<V>>>::empty());
        r
    }

    /// The frame that newly reported values are tagged with.
    pub fn frame(&self) -> (r: usize)
        ensures
            r == self@.frame,
    {
        self.frame
    }

    /// Number of registered streams.
    pub fn stream_count(&self) -> (r: usize)
        ensures
            r == self@.streams.len(),
    {
        self.streams.len()
    }

    /// The id of `name` when it is registered; `None` otherwise. Unlike
    /// [`Statistics::get_data_stream_id`] this never registers anything.
    pub fn find_stream(&self, name: &str) -> (r: Option<DataStreamId>)
        requires
            self.wf(),
        ensures
            r is Some <==> self@.has_name(name@),
            r matches Some(id) ==> id.id == self@.id_of(name@),
    {
        let key = name.to_owned();
        let n = self.names.len();
        let mut i: usize = 0;
        while i < n
            invariant
                self.wf(),
                n == self@.names.len(),
                key@ == name@,
                0 <= i <= n,
                forall|j: int| 0 <= j < i ==> self@.names[j] != name@,
            decreases n - i,
        {
            if self.names[i] == key {
                proof {
                    let m = self@;
                    assert(m.names[i as int] == name@);
                    assert(m.has_name(name@));
                    let k = m.id_of(name@);
                    assert(m.names[k] == name@);
                }
                return Some(DataStreamId { id: i });
            }
            i = i + 1;
        }
        None
    }

    /// The name that stream `stream_id` was registered under.
    pub fn stream_name(&self, stream_id: DataStreamId) -> (r: &String)
        requires
            self.wf(),
            stream_id.id < self@.streams.len(),
        ensures
            r@ == self@.names[stream_id.id as int],
    {
        &self.names[stream_id.id]
    }

    /// The entries of stream `stream_id`, oldest first.
    pub fn entries(&self, stream_id: DataStreamId) -> (r: &VecDeque<Entry<V>>)
        requires
            self.wf(),
            stream_id.id < self@.streams.len(),
        ensures
            r@ == self@.streams[stream_id.id as int],
    {
        &self.streams[stream_id.id]
    }

    /// Returns the id of `name`, registering it with an empty stream first
    /// when it has not been seen since the last restart.
    pub fn get_data_stream_id(&mut self, name: &str) -> (r: DataStreamId)
        requires
            old(self).wf(),
        ensures
            final(self).wf(),
            (final(self)@, r.id as nat) == old(self)@.get_or_create(name@),
            r.id < final(self)@.names.len(),
            final(self)@.names[r.id as int] == name@,
    {
        match self.find_stream(name) {
            Some(id) => {
                proof {
                    let m = self@;
                    let k = m.id_of(name@);
                    assert(m.names[k] == name@);
                }
                return id;
            },
            None => {},
        }
        let key = name.to_owned();
        let n = self.names.len();
        let ghost before = self@;
        assert(!before.has_name(name@));
        self.names.push(key);
        self.streams.push(VecDeque::new());
        proof {
            let after = self@;
            let (m, id) = before.get_or_create(name@);
            assert(after.names =~= m.names);
            assert(after.streams =~= m.streams);
            assert forall|k: int| 0 <= k < after.streams.len() implies stream_ordered(
                #[trigger] after.streams[k],
                after.frame,
            ) by {
                if k < before.streams.len() {
                    assert(after.streams[k] == before.streams[k]);
                }
            }
        }
        DataStreamId { id: n }
    }

    /// Appends `value`, tagged with the current frame, to stream `stream_id`.
    pub fn report_value(&mut self, stream_id: DataStreamId, value: V)
        requires
            old(self).wf(),
            stream_id.id < old(self)@.streams.len(),
        ensures
            final(self).wf(),
            final(self)@ == old(self)@.report(stream_id.id as nat, value),
    {
        let ghost before = self@;
        let entry = Entry { frame: self.frame, value };
        self.streams[stream_id.id].push_back(entry);
        proof {
            let after = self@;
            let expect = before.report(stream_id.id as nat, value);
            assert(after.streams =~= expect.streams);
            assert(after.names =~= expect.names);
            let k = stream_id.id as int;
            assert(stream_ordered(before.streams[k], before.frame));
            assert(stream_ordered(after.streams[k], after.frame));
        }
    }

    /// Registers `name` when unseen, then appends `value` to its stream.
    pub fn report_value_with_name(&mut self, name: &str, value: V)
        requires
            old(self).wf(),
        ensures
            final(self).wf(),
            final(self)@ == old(self)@.report_with_name(name@, value),
    {
        let stream_id = self.get_data_stream_id(name);
        self.report_value(stream_id, value);
    }

    /// Advances the frame counter by one.
    pub fn next_frame(&mut self)
        requires
            old(self).wf(),
            old(self)@.frame < usize::MAX,
        ensures
            final(self).wf(),
            final(self)@ == old(self)@.next_frame(),
    {
        self.frame = self.frame + 1;
        proof {
            assert forall|k: int| 0 <= k < self@.streams.len() implies stream_ordered(
                #[trigger] self@.streams[k],
                self@.frame,
            ) by {
                assert(stream_ordered(self@.streams[k], (self@.frame - 1) as usize));
            }
        }
    }

    /// Drops every stream and name and sets the frame counter back to zero.
    pub fn restart(&mut self)
        ensures
            final(self).wf(),
            final(self)@ == old(self)@.restart(),
    {
        self.frame = 0;
        self.names.clear();
        self.streams.clear();
        assert(self@.names =~= Seq::<Seq<char>>::empty());
        assert(self@.streams =~= Seq::<Seq<Entry<V>>>::empty());
    }
}

/// The file stem under which a stream is exported: its name with every
/// space replaced by an underscore.
pub open spec fn file_stem_of(name: Seq<char>) -> Seq<char> {
    name.map_values(|c: char| if c == ' ' { '_' } else { c })
}

/// Computes [`file_stem_of`] for `name`.
pub fn export_file_stem(name: &str) -> (r: Vec<char>)
    ensures
        r@ == file_stem_of(name@),
{
    let n = name.unicode_len();
    let mut stem: Vec<char> = Vec::new();
    let mut i: usize = 0;
    while i < n
        invariant
            n == name@.len(),
            0 <= i <= n,
            stem@ == file_stem_of(name@.subrange(0, i as int)),
        decreases n - i,
    {
        let c = name.get_char(i);
        if c == ' ' {
            stem.push('_');
        } else {
            stem.push(c);
        }
        proof {
            assert(name@.subrange(0, i + 1) =~= name@.subrange(0, i as int).push(c));
        }
        i = i + 1;
        assert(stem@ =~= file_stem_of(name@.subrange(0, i as int)));
    }
    assert(name@.subrange(0, n as int) =~= name@);
    stem
}

/// Advances the frame counter of `statistics` by one.
pub fn next_frame<V>(statistics: &mut Statistics<V>)
    requires
        old(statistics).wf(),
        old(statistics)@.frame < usize::MAX,
    ensures
        final(statistics).wf(),
        final(statistics)@ == old(statistics)@.next_frame(),
{
    statistics.next_frame();
}

/// Clears every stream and name of `statistics` and resets its frame to zero.
pub fn restart_statistics<V>(statistics: &mut Statistics<V>)
    ensures
        final(statistics).wf(),
        final(statistics)@ == old(statistics)@.restart(),
{
    statistics.restart();
}

/// The id of `name` in `statistics`, registered on first use.
pub fn get_data_stream_id<V>(statistics: &mut Statistics<V>, name: &str) -> (r: DataStreamId)
    requires
        old(statistics).wf(),
    ensures
        final(statistics).wf(),
        (final(statistics)@, r.id as nat) == old(statistics)@.get_or_create(name@),
        r.id < final(statistics)@.names.len(),
        final(statistics)@.names[r.id as int] == name@,
{
    statistics.get_data_stream_id(name)
}

/// Appends `value` to the stream `stream_id` of `statistics`.
pub fn report_value<V>(statistics: &mut Statistics<V>, stream_id: DataStreamId, value: V)
    requires
        old(statistics).wf(),
        stream_id.id < old(statistics)@.streams.len(),
    ensures
        final(statistics).wf(),
        final(statistics)@ == old(statistics)@.report(stream_id.id as nat, value),
{
    statistics.report_value(stream_id, value);
}

/// Appends `value` to the stream called `name` of `statistics`.
pub fn report_value_with_name<V>(statistics: &mut Statistics<V>, name: &str, value: V)
    requires
        old(statistics).wf(),
    ensures
        final(statistics).wf(),
        final(statistics)@ == old(statistics)@.report_with_name(name@, value),
{
    statistics.report_value_with_name(name, value);
}

/// Asking twice for the id of one name gives the same id, and the second
/// request changes nothing.
pub proof fn lemma_stream_id_stable<V>(m: StatisticsModel<V>, name: Seq<char>)
    requires
        m.wf(),
    ensures
        ({
            let (m1, id1) = m.get_or_create(name);
            let (m2, id2) = m1.get_or_create(name);
            &&& m1.wf()
            &&& id1 == id2
            &&& m2 == m1
            &&& m1.names[id1 as int] == name
        }),
{
    let (m1, id1) = m.get_or_create(name);
    if m.has_name(name) {
        let k = m.id_of(name);
        assert(m.names[k] == name);
    } else {
        assert(m1.names[m.names.len() as int] == name);
        assert(m1.has_name(name));
        let k = m1.id_of(name);
        assert(m1.names[k] == name);
        assert forall|i: int| 0 <= i < m1.streams.len() implies stream_ordered(
            #[trigger] m1.streams[i],
            m1.frame,
        ) by {
            if i < m.streams.len() {
                assert(m1.streams[i] == m.streams[i]);
            }
        }
    }
}

/// Reporting a value under a name that has not been seen puts exactly one
/// entry, the value tagged with the current frame, in that name's export.
pub proof fn lemma_report_under_new_name<V>(m: StatisticsModel<V>, name: Seq<char>, value: V)
    requires
        m.wf(),
        !m.has_name(name),
    ensures
        m.report_with_name(name, value).exported(name) == seq![
            Entry { frame: m.frame, value },
        ],
{
    let (m1, id) = m.get_or_create(name);
    let m2 = m1.report(id, value);
    assert(m2.names == m1.names);
    assert(m2.names[id as int] == name);
    assert(m2.has_name(name));
    let k = m2.id_of(name);
    assert(m2.names[k] == name);
    assert(k == id);
    assert(m2.streams[id as int] =~= seq![Entry { frame: m.frame, value }]);
}

/// After a restart ids are handed out from zero again, in order of first
/// use, and no name has any entry to export.
pub proof fn lemma_restart_starts_afresh<V>(m: StatisticsModel<V>, a: Seq<char>, b: Seq<char>)
    requires
        a != b,
    ensures
        m.restart().wf(),
        m.restart().exported(a) == Seq::<Entry<V>>::empty(),
        m.restart().get_or_create(a).1 == 0,
        m.restart().get_or_create(a).0.get_or_create(b).1 == 1,
{
    let r = m.restart();
    let (r1, _) = r.get_or_create(a);
    assert(!r.has_name(a));
    if r1.has_name(b) {
        let k = r1.id_of(b);
        assert(r1.names[k] == b);
        assert(r1.names[0] == a);
    }
}

/// `n` frame advances move the counter by exactly `n`, keep the recorder
/// well formed, and a value reported afterwards carries the frame reached.
pub proof fn lemma_advance_tags_reports<V>(m: StatisticsModel<V>, n: nat, id: nat, value: V)
    requires
        m.wf(),
        m.frame + n <= usize::MAX,
        id < m.streams.len(),
    ensures
        m.advance(n).frame == m.frame + n,
        m.advance(n).wf(),
        m.advance(n).report(id, value).wf(),
        m.advance(n).report(id, value).streams[id as int].last() == (Entry {
            frame: (m.frame + n) as usize,
            value,
        }),
    decreases n,
{
    if n > 0 {
        let m1 = m.next_frame();
        assert forall|i: int| 0 <= i < m1.streams.len() implies stream_ordered(
            #[trigger] m1.streams[i],
            m1.frame,
        ) by {
            assert(stream_ordered(m.streams[i], m.frame));
        }
        lemma_advance_tags_reports(m1, (n - 1) as nat, id, value);
    } else {
        lemma_report_keeps_order(m, id, value);
    }
}

/// Reporting keeps every stream ordered by frame.
pub proof fn lemma_report_keeps_order<V>(m: StatisticsModel<V>, id: nat, value: V)
    requires
        m.wf(),
        id < m.streams.len(),
    ensures
        m.report(id, value).wf(),
{
    let r = m.report(id, value);
    assert forall|i: int| 0 <= i < r.streams.len() implies stream_ordered(
        #[trigger] r.streams[i],
        r.frame,
    ) by {
        assert(stream_ordered(m.streams[i], m.frame));
    }
}

} // verus!
