//! One scan: the state it keeps between the host's calls and the calls
//! themselves.

use vstd::prelude::*;
use std::collections::HashMap;
use datafusion::execution::runtime_env::RuntimeEnv;
use crate::registry::{parsed_location, store_key, BackendKind, ObjectStoreRegistry, RegistryError};
use crate::batch::{columns_view, projected_row, Batch, BatchView, Column, ColumnView, Row, RowView};
use crate::error::{ScanError, ScanErrorView};
use crate::stream::{
    first_substantial_from, is_empty_batch, lemma_first_substantial, BatchStream, StreamItem,
    StreamItemView,
};

verus! {

/// Where a scan stands in its life.
#[derive(Debug, Clone, Copy, PartialEq, Eq, Structural)]
pub enum ScanPhase {
    /// Not begun, or ended.
    Closed,
    /// Begun; no row asked for yet.
    Planned,
    /// Rows are being handed out.
    Streaming,
    /// The stream has ended; no row is left.
    Exhausted,
}

/// What a scan's state stands for.
pub ghost struct ScanView {
    pub phase: ScanPhase,
    /// The items not yet consumed, where the scan holds a stream.
    pub stream: Option<Seq<StreamItemView>>,
    /// The buffered batch, where there is one.
    pub batch: Option<BatchView>,
    /// The next row to hand out of the buffered batch.
    pub index: nat,
    /// The projection.
    pub columns: Seq<ColumnView>,
}

impl ScanView {
    /// The index lies within the buffered batch or just behind its last
    /// row, if a batch is buffered. A stream is held exactly while the scan
    /// is planned or streaming, and a batch only once rows were asked for
    /// and until the scan is closed. An exhausted scan has no row left in
    /// its buffer.
    pub open spec fn well_formed(self) -> bool {
        &&& self.batch matches Some(b) ==> self.index <= b.num_rows && (self.phase
            == ScanPhase::Streaming || self.phase == ScanPhase::Exhausted)
        &&& self.phase == ScanPhase::Exhausted ==> !self.has_buffered_row()
        &&& self.stream is Some <==> (self.phase == ScanPhase::Planned || self.phase
            == ScanPhase::Streaming)
    }

    /// A row is buffered and waits to be handed out.
    pub open spec fn has_buffered_row(self) -> bool {
        self.batch matches Some(b) && self.index < b.num_rows
    }

    /// The state after `end_scan`.
    pub open spec fn closed(self) -> ScanView {
        ScanView {
            phase: ScanPhase::Closed,
            stream: None,
            batch: None,
            index: 0,
            columns: self.columns,
        }
    }

    /// The state and the result of handing out row `index` of `batch`, with
    /// `stream` as what is left of the stream: the batch stays buffered, and
    /// the index moves on by one with the row that is handed out.
    pub open spec fn emit(self, batch: BatchView, index: nat, stream: Option<Seq<StreamItemView>>) -> (
        ScanView,
        Result<Option<RowView>, ScanErrorView>,
    ) {
        match projected_row(batch, index as int, self.columns) {
            Err(e) => (
                ScanView {
                    phase: ScanPhase::Streaming,
                    stream,
                    batch: Some(batch),
                    index,
                    columns: self.columns,
                },
                Err(e),
            ),
            Ok(row) => (
                ScanView {
                    phase: ScanPhase::Streaming,
                    stream,
                    batch: Some(batch),
                    index: index + 1,
                    columns: self.columns,
                },
                Ok(Some(row)),
            ),
        }
    }

    /// The state and the result of pulling from `items` until an item that
    /// is not a batch without rows. The end of the stream exhausts the scan
    /// and releases the stream; a failure is reported; either way the
    /// buffered batch and the index stay as they were. A batch is buffered
    /// in place of the one before, the index starts again at zero, and the
    /// first row is handed out.
    pub open spec fn refill(self, items: Seq<StreamItemView>) -> (
        ScanView,
        Result<Option<RowView>, ScanErrorView>,
    ) {
        let k = first_substantial_from(items, 0);
        if k >= items.len() {
            (ScanView { phase: ScanPhase::Exhausted, stream: None, ..self }, Ok(None))
        } else {
            match items[k] {
                StreamItemView::Failure(text) => (
                    ScanView {
                        phase: ScanPhase::Streaming,
                        stream: Some(items.skip(k + 1)),
                        ..self
                    },
                    Err(ScanErrorView::Stream(text)),
                ),
                StreamItemView::Batch(b) => self.emit(b, 0, Some(items.skip(k + 1))),
            }
        }
    }

    /// The state after one `iter_scan`, and what the call returns. An
    /// exhausted scan reports the end again. Else a buffered row is handed
    /// out; where none is buffered the scan pulls from its stream, and
    /// without a stream it reports that and changes nothing.
    pub open spec fn step(self) -> (ScanView, Result<Option<RowView>, ScanErrorView>) {
        if self.phase == ScanPhase::Exhausted {
            (self, Ok(None))
        } else if self.has_buffered_row() {
            self.emit(self.batch->Some_0, self.index, self.stream)
        } else {
            match self.stream {
                None => (self, Err(ScanErrorView::StreamNotFound)),
                Some(items) => self.refill(items),
            }
        }
    }
}

/// The view of an optional stream and of an optional batch.
pub open spec fn stream_view(stream: Option<BatchStream>) -> Option<Seq<StreamItemView>> {
    match stream {
        Some(s) => Some(s@),
        None => None,
    }
}

pub open spec fn buffered_view(batch: Option<Batch>) -> Option<BatchView> {
    match batch {
        Some(b) => Some(b@),
        None => None,
    }
}

/// The view of what `iter_scan` returns.
pub open spec fn iter_result_view(outcome: Result<Option<Row>, ScanError>) -> Result<
    Option<RowView>,
    ScanErrorView,
> {
    match outcome {
        Ok(Some(row)) => Ok(Some(row@)),
        Ok(None) => Ok(None),
        Err(e) => Err(e@),
    }
}

/// The view of what `get_next_batch` returns.
pub open spec fn pulled_view(outcome: Result<Option<Batch>, ScanError>) -> Result<
    Option<BatchView>,
    ScanErrorView,
> {
    match outcome {
        Ok(batch) => Ok(buffered_view(batch)),
        Err(e) => Err(e@),
    }
}

/// The state of one scan over files of the local file system.
#[derive(Debug)]
pub struct LocalFileFdw {
    phase: ScanPhase,
    stream: Option<BatchStream>,
    current_batch: Option<Batch>,
    current_batch_index: usize,
    target_columns: Vec<Column>,
}

impl View for LocalFileFdw {
    type V = ScanView;

    closed spec fn view(&self) -> ScanView {
        ScanView {
            phase: self.phase,
            stream: stream_view(self.stream),
            batch: buffered_view(self.current_batch),
            index: self.current_batch_index as nat,
            columns: columns_view(self.target_columns@),
        }
    }
}

impl LocalFileFdw {
    /// A closed scan with an empty projection.
    pub fn closed() -> (scan: LocalFileFdw)
        ensures
            scan@ == (ScanView {
                phase: ScanPhase::Closed,
                stream: None,
                batch: None,
                index: 0,
                columns: Seq::empty(),
            }),
            scan@.well_formed(),
    {
        let scan = LocalFileFdw {
            phase: ScanPhase::Closed,
            stream: None,
            current_batch: None,
            current_batch_index: 0,
            target_columns: Vec::new(),
        };
        assert(scan@.columns =~= Seq::empty());
        scan
    }

    /// Where the scan stands.
    pub fn phase(&self) -> (phase: ScanPhase)
        ensures
            phase == self@.phase,
    {
        self.phase
    }

    /// The buffered batch, if there is one.
    pub fn get_current_batch(&self) -> (batch: &Option<Batch>)
        ensures
            buffered_view(*batch) == self@.batch,
    {
        &self.current_batch
    }

    /// The next row to hand out of the buffered batch.
    pub fn get_current_batch_index(&self) -> (index: usize)
        ensures
            index == self@.index,
    {
        self.current_batch_index
    }

    /// The projection.
    pub fn get_target_columns(&self) -> (columns: &Vec<Column>)
        ensures
            columns_view(columns@) == self@.columns,
    {
        &self.target_columns
    }

    /// Puts `batch` in the buffer, or empties the buffer. Nothing else
    /// changes: the index is the caller's to set.
    pub fn set_current_batch(&mut self, batch: Option<Batch>)
        ensures
            final(self)@ == (ScanView { batch: buffered_view(batch), ..old(self)@ }),
    {
        self.current_batch = batch;
    }

    /// Sets the next row to hand out of the buffered batch. An index at or
    /// behind the end of the batch makes the next `iter_scan` pull a batch.
    pub fn set_current_batch_index(&mut self, index: usize)
        ensures
            final(self)@ == (ScanView { index: index as nat, ..old(self)@ }),
    {
        self.current_batch_index = index;
    }

    /// Gives the scan `stream` to pull from, or takes its stream away.
    /// Nothing else changes.
    pub fn set_stream(&mut self, stream: Option<BatchStream>)
        ensures
            final(self)@ == (ScanView { stream: stream_view(stream), ..old(self)@ }),
    {
        self.stream = stream;
    }

    /// Records `columns` as the projection.
    pub fn set_target_columns(&mut self, columns: &[Column])
        ensures
            final(self)@ == (ScanView { columns: columns_view(columns@), ..old(self)@ }),
            old(self)@.well_formed() ==> final(self)@.well_formed(),
    {
        let mut copy: Vec<Column> = Vec::new();
        let mut i: usize = 0;
        while i < columns.len()
            invariant
                i <= columns@.len(),
                copy@.len() == i,
                forall|j: int| 0 <= j < i ==> (#[trigger] copy@[j])@ == columns@[j]@,
            decreases columns@.len() - i,
        {
            let c = &columns[i];
            copy.push(Column { name: c.name.clone(), num: c.num, type_oid: c.type_oid });
            i += 1;
        }
        assert(columns_view(copy@) =~= columns_view(columns@));
        self.target_columns = copy;
    }

    /// Opens the scan: records `columns` as the projection and takes the
    /// stream that executing the plan gave. Where the plan could not be
    /// built or executed the error is reported and the scan stays closed.
    pub fn begin_scan(&mut self, columns: &[Column], opened: Result<BatchStream, String>) -> (outcome:
        Result<(), ScanError>)
        ensures
            match opened {
                Ok(stream) => outcome is Ok && final(self)@ == (ScanView {
                    phase: ScanPhase::Planned,
                    stream: Some(stream@),
                    batch: None,
                    index: 0,
                    columns: columns_view(columns@),
                }),
                Err(cause) => outcome matches Err(e) && e@ == ScanErrorView::Plan(cause@)
                    && final(self)@ == (ScanView {
                    phase: ScanPhase::Closed,
                    stream: None,
                    batch: None,
                    index: 0,
                    columns: columns_view(columns@),
                }),
            },
            final(self)@.well_formed(),
    {
        self.set_target_columns(columns);
        self.current_batch = None;
        self.current_batch_index = 0;
        match opened {
            Ok(stream) => {
                self.stream = Some(stream);
                self.phase = ScanPhase::Planned;
                Ok(())
            },
            Err(cause) => {
                self.stream = None;
                self.phase = ScanPhase::Closed;
                Err(ScanError::Plan(cause))
            },
        }
    }

    /// Closes the scan and releases the stream and the buffered batch,
    /// whatever state the scan is in.
    pub fn end_scan(&mut self) -> (outcome: Result<(), ScanError>)
        ensures
            outcome is Ok,
            final(self)@ == old(self)@.closed(),
            final(self)@.well_formed(),
    {
        self.stream = None;
        self.current_batch = None;
        self.current_batch_index = 0;
        self.phase = ScanPhase::Closed;
        Ok(())
    }

    /// Takes the next item off the stream: a batch, the end of the stream
    /// (`None`), or the producer's failure. Without a stream the call fails
    /// and changes nothing.
    pub fn get_next_batch(&mut self) -> (outcome: Result<Option<Batch>, ScanError>)
        ensures
            old(self)@.well_formed() ==> final(self)@.well_formed(),
            final(self)@.phase == old(self)@.phase,
            final(self)@.batch == old(self)@.batch,
            final(self)@.index == old(self)@.index,
            final(self)@.columns == old(self)@.columns,
            match old(self)@.stream {
                None => final(self)@.stream is None && pulled_view(outcome) == Err::<
                    Option<BatchView>,
                    ScanErrorView,
                >(ScanErrorView::StreamNotFound),
                Some(items) => if items.len() == 0 {
                    final(self)@.stream == Some(items) && pulled_view(outcome) == Ok::<
                        Option<BatchView>,
                        ScanErrorView,
                    >(None)
                } else {
                    final(self)@.stream == Some(items.skip(1)) && pulled_view(outcome) == (
                    match items[0] {
                        StreamItemView::Batch(b) => Ok::<Option<BatchView>, ScanErrorView>(Some(b)),
                        StreamItemView::Failure(text) => Err::<Option<BatchView>, ScanErrorView>(
                            ScanErrorView::Stream(text),
                        ),
                    })
                },
            },
    {
        let mut held = self.stream.take();
        match held {
            None => Err(ScanError::StreamNotFound),
            Some(mut stream) => {
                let item = stream.next();
                self.stream = Some(stream);
                match item {
                    None => Ok(None),
                    Some(StreamItem::Batch(batch)) => Ok(Some(batch)),
                    Some(StreamItem::Failure(cause)) => Err(ScanError::Stream(cause)),
                }
            },
        }
    }
}

impl LocalFileFdw {
    /// Hands out the buffered row at the index and moves the index past it.
    fn emit_row(&mut self) -> (outcome: Result<Option<Row>, ScanError>)
        requires
            old(self)@.has_buffered_row(),
        ensures
            (final(self)@, iter_result_view(outcome)) == old(self)@.emit(
                old(self)@.batch->Some_0,
                old(self)@.index,
                old(self)@.stream,
            ),
    {
        let (projected, rows) = match &self.current_batch {
            Some(batch) => (
                batch.project_row(self.current_batch_index, &self.target_columns),
                batch.num_rows(),
            ),
            None => (Err(ScanError::StreamNotFound), 0),
        };
        self.phase = ScanPhase::Streaming;
        match projected {
            Err(e) => Err(e),
            Ok(row) => {
                assert(self.current_batch_index < rows);
                self.current_batch_index = self.current_batch_index + 1;
                Ok(Some(row))
            },
        }
    }

    /// The next row of the scan, or `None` when the stream has ended. A
    /// batch without rows is passed over. Each row holds exactly the
    /// requested columns, in the requested order.
    pub fn iter_scan(&mut self) -> (outcome: Result<Option<Row>, ScanError>)
        ensures
            (final(self)@, iter_result_view(outcome)) == old(self)@.step(),
            old(self)@.well_formed() ==> final(self)@.well_formed(),
    {
        proof {
            if self@.well_formed() {
                lemma_step_keeps_well_formed(self@);
            }
        }
        match self.phase {
            ScanPhase::Exhausted => {
                return Ok(None);
            },
            _ => {},
        }
        let buffered: bool = match &self.current_batch {
            Some(batch) => self.current_batch_index < batch.num_rows(),
            None => false,
        };
        if buffered {
            return self.emit_row();
        }
        if self.stream.is_none() {
            return Err(ScanError::StreamNotFound);
        }
        let ghost items = self@.stream->Some_0;
        let ghost stop = first_substantial_from(items, 0);
        let ghost mut passed: int = 0;
        proof {
            lemma_first_substantial(items, 0);
        }
        loop
            invariant
                0 <= passed <= stop <= items.len(),
                stop == first_substantial_from(items, 0),
                forall|j: int| 0 <= j < stop ==> is_empty_batch(items[j]),
                stop < items.len() ==> !is_empty_batch(items[stop]),
                self@.stream == Some(items.skip(passed)),
                self@.columns == old(self)@.columns,
                self@.batch == old(self)@.batch,
                self@.index == old(self)@.index,
                old(self)@.stream == Some(items),
                old(self)@.phase != ScanPhase::Exhausted,
                !old(self)@.has_buffered_row(),
            decreases items.len() - passed,
        {
            let pulled = self.get_next_batch();
            proof {
                if passed < items.len() {
                    assert(items.skip(passed).skip(1) =~= items.skip(passed + 1));
                }
            }
            match pulled {
                Err(e) => {
                    self.phase = ScanPhase::Streaming;
                    return Err(e);
                },
                Ok(None) => {
                    self.stream = None;
                    self.phase = ScanPhase::Exhausted;
                    return Ok(None);
                },
                Ok(Some(batch)) => {
                    if batch.num_rows() > 0 {
                        self.current_batch = Some(batch);
                        self.current_batch_index = 0;
                        return self.emit_row();
                    }
                    proof {
                        passed = passed + 1;
                    }
                },
            }
        }
    }
}

/// `iter_scan` keeps a well-formed scan well-formed.
pub proof fn lemma_step_keeps_well_formed(scan: ScanView)
    requires
        scan.well_formed(),
    ensures
        scan.step().0.well_formed(),
{
    if scan.phase != ScanPhase::Exhausted && !scan.has_buffered_row() {
        if let Some(items) = scan.stream {
            lemma_first_substantial(items, 0);
        }
    }
}

impl LocalFileFdw {
    /// Registers the local file system as the backend of `file://`
    /// locations, with the engine and with the session's registry. The two
    /// option sets are not consulted: this backend takes no configuration.
    pub fn register_object_store(
        registry: &mut ObjectStoreRegistry,
        env: &RuntimeEnv,
        _server_options: HashMap<String, String>,
        _user_mapping_options: HashMap<String, String>,
    ) -> (outcome: Result<(), RegistryError>)
        ensures
            match parsed_location("file://"@) {
                Some((scheme, authority)) => outcome is Ok && final(registry)@ == old(registry)@.insert(
                    store_key(scheme, authority),
                    BackendKind::LocalFileSystem,
                ),
                None => outcome == Err::<(), RegistryError>(RegistryError::InvalidLocation)
                    && final(registry)@ == old(registry)@,
            },
    {
        registry.register_local_file_system(env, "file://")
    }

    /// A closed scan, made once the local file system is registered with
    /// the session. Where the registration fails, so does this.
    pub fn new(
        registry: &mut ObjectStoreRegistry,
        env: &RuntimeEnv,
        server_options: HashMap<String, String>,
        user_mapping_options: HashMap<String, String>,
    ) -> (outcome: Result<LocalFileFdw, RegistryError>)
        ensures
            match parsed_location("file://"@) {
                Some((scheme, authority)) => final(registry)@ == old(registry)@.insert(
                    store_key(scheme, authority),
                    BackendKind::LocalFileSystem,
                ) && outcome is Ok && outcome->Ok_0@ == (ScanView {
                    phase: ScanPhase::Closed,
                    stream: None,
                    batch: None,
                    index: 0,
                    columns: Seq::empty(),
                }),
                None => outcome == Err::<LocalFileFdw, RegistryError>(RegistryError::InvalidLocation)
                    && final(registry)@ == old(registry)@,
            },
    {
        match LocalFileFdw::register_object_store(
            registry,
            env,
            server_options,
            user_mapping_options,
        ) {
            Err(e) => Err(e),
            Ok(()) => Ok(LocalFileFdw::closed()),
        }
    }
}


impl ScanView {
    /// The scan holds a stream and can hand out nothing from what was
    /// delivered: it is not exhausted, no row is buffered, and the stream
    /// holds only batches without rows.
    pub open spec fn starved(self) -> bool {
        &&& self.phase != ScanPhase::Exhausted
        &&& !self.has_buffered_row()
        &&& self.stream matches Some(items) && first_substantial_from(items, 0) >= items.len()
    }
}

impl LocalFileFdw {
    /// Whether the scan holds a stream and has nothing to hand out from what
    /// the producer has delivered so far. A caller that feeds the scan from a
    /// producer of its own delivers the producer's next item while this
    /// holds, and calls `iter_scan` once it does not or the producer has
    /// ended.
    pub fn is_starved(&self) -> (starved: bool)
        ensures
            starved == self@.starved(),
    {
        match self.phase {
            ScanPhase::Exhausted => {
                return false;
            },
            _ => {},
        }
        let buffered: bool = match &self.current_batch {
            Some(batch) => self.current_batch_index < batch.num_rows(),
            None => false,
        };
        if buffered {
            return false;
        }
        match &self.stream {
            Some(stream) => stream.is_drained(),
            None => false,
        }
    }

    /// Adds `item` behind what the producer has delivered. A scan without
    /// a stream drops the item and answers `false`.
    pub fn deliver(&mut self, item: StreamItem) -> (taken: bool)
        ensures
            taken == old(self)@.stream is Some,
            final(self)@ == (ScanView {
                stream: match old(self)@.stream {
                    Some(items) => Some(items.push(item@)),
                    None => None,
                },
                ..old(self)@
            }),
            old(self)@.well_formed() ==> final(self)@.well_formed(),
    {
        let held = self.stream.take();
        match held {
            None => false,
            Some(mut stream) => {
                stream.deliver(item);
                self.stream = Some(stream);
                true
            },
        }
    }
}

} // verus!
