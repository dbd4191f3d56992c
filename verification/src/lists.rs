//! Cons cells, the cons heap, and the list primitives.
//!
//! The heap holds the cells handed out so far, in allocation order, grouped
//! in blocks of `CONS_BLOCK_SIZE` cells. The cell with index `i` lives at
//! address `16 * i`, so a cons object is the word `16 * i + 3`. Cells that
//! were reclaimed sit on a free list, chained through the cells themselves,
//! and are reused before any fresh cell of the current block.
use vstd::prelude::*;
use crate::object::{
    LispObject, LispType, XTYPE, XUNTAG, make_lisp_ptr, tagged, nil, lisp_bool,
    consp_symbol, listp_symbol, Qnil, Qconsp, Qlistp,
};

verus! {

/// Number of cons cells in one cons block.
pub const CONS_BLOCK_SIZE: usize = 100;

/// Number of bits in one word of a mark bitmap.
pub const BITS_PER_BITS_WORD: usize = 64;

/// Number of mark-bitmap words that cover the cells of one cons block.
pub const GCMARK_WORDS: usize = 1 + CONS_BLOCK_SIZE / BITS_PER_BITS_WORD;

/// Size in bytes of one cons cell: two object words.
pub const SIZEOF_LISP_CONS: u64 = 16;

/// Largest number of cons cells the heap can hold: their addresses must fit
/// in a 48-bit address space.
pub const MAX_CONS_CELLS: u64 = 0x1000_0000_0000;

/// A cons cell: a pair of two objects.
#[derive(Clone, Copy, PartialEq, Eq, Structural, Debug)]
pub struct LispCons {
    /// Car of this cons cell.
    pub car: LispObject,
    /// Cdr of this cons cell.
    pub cdr: LispObject,
}

/// The free-list link stored in a reclaimed cons cell: the index of the
/// next free cell, or `None` at the end of the list.
#[derive(Clone, Copy, PartialEq, Eq, Debug)]
pub struct LispConsChain {
    pub chain: Option<usize>,
}

/// One slot of the cons heap: a cell in use, or a reclaimed cell that holds
/// the free-list link in place of its contents.
#[derive(Clone, Copy, Debug)]
pub enum ConsSlot {
    Live(LispCons),
    Free(LispConsChain),
}

/// An error signalled by a list primitive.
#[derive(Clone, Copy, PartialEq, Eq, Structural, Debug)]
pub enum LispError {
    /// `(wrong-type-argument PREDICATE VALUE)`: `VALUE` does not satisfy
    /// the type predicate named by the symbol `PREDICATE`.
    WrongTypeArgument(LispObject, LispObject),
}

/// The error that `value` fails the type predicate `predicate`.
pub fn wrong_type_argument(predicate: LispObject, value: LispObject) -> (e: LispError)
    ensures
        e == LispError::WrongTypeArgument(predicate, value),
{
    LispError::WrongTypeArgument(predicate, value)
}

/// Check a type condition: `Ok` when `ok` holds, else the error that `x`
/// fails `predicate`.
pub fn CHECK_TYPE(ok: bool, predicate: LispObject, x: LispObject) -> (r: Result<(), LispError>)
    ensures
        r == (if ok {
            Ok::<(), LispError>(())
        } else {
            Err(LispError::WrongTypeArgument(predicate, x))
        }),
{
    if ok {
        Ok(())
    } else {
        Err(wrong_type_argument(predicate, x))
    }
}

/// Whether `o` is tagged as a cons.
pub open spec fn is_cons(o: LispObject) -> bool {
    o.lisp_type() == LispType::Lisp_Cons
}

/// Whether `o` is a list: a cons or `nil`.
pub open spec fn is_list(o: LispObject) -> bool {
    is_cons(o) || o == nil()
}

/// What `(consp o)` gives.
pub open spec fn consp_spec(o: LispObject) -> LispObject {
    lisp_bool(is_cons(o))
}

/// What `(atom o)` gives.
pub open spec fn atom_spec(o: LispObject) -> LispObject {
    lisp_bool(!is_cons(o))
}

/// What `(listp o)` gives.
pub open spec fn listp_spec(o: LispObject) -> LispObject {
    lisp_bool(is_list(o))
}

/// What `(nlistp o)` gives.
pub open spec fn nlistp_spec(o: LispObject) -> LispObject {
    lisp_bool(!is_list(o))
}

/// The index of the cell that the cons object `o` points to.
pub open spec fn cons_id(o: LispObject) -> nat {
    ((o.0 - 3) / 16) as nat
}

/// Whether `o` is a cons object that points to the cell with index `id`.
pub open spec fn refers_to(o: LispObject, id: int) -> bool {
    is_cons(o) && cons_id(o) == id
}

/// The address of the cell with index `id`.
pub open spec fn cons_address(id: nat) -> u64 {
    (id * 16) as u64
}

/// The cons object that points to the cell with index `id`.
pub open spec fn cons_object(id: nat) -> LispObject {
    tagged(cons_address(id), LispType::Lisp_Cons)
}

/// The link stored in the `i`-th cell of the free list `fl`.
pub open spec fn next_link(fl: Seq<nat>, i: int) -> Option<usize> {
    if i + 1 < fl.len() {
        Some(fl[i + 1] as usize)
    } else {
        None
    }
}

/// The zeroed mark words of one fresh cons block.
pub open spec fn zero_marks() -> Seq<u64> {
    Seq::new(GCMARK_WORDS as nat, |i: int| 0u64)
}

/// The abstract state of the cons heap.
#[verifier::ext_equal]
pub struct HeapModel {
    /// All cells handed out so far, by index.
    pub slots: Seq<ConsSlot>,
    /// The free list, head first.
    pub free_list: Seq<nat>,
    /// Number of cons blocks allocated.
    pub cons_blocks: nat,
    /// Number of cells of the current block that were handed out.
    pub cons_block_index: nat,
    /// Mark bits, `GCMARK_WORDS` words per block.
    pub gcmarkbits: Seq<u64>,
    /// Bytes of cons cells allocated since the last collection.
    pub consing_since_gc: int,
    /// Number of free cons cells: on the free list or not yet handed out.
    pub total_free_conses: int,
    /// Number of cons cells made so far.
    pub cons_cells_consed: int,
}

impl HeapModel {
    /// Whether the cell with index `id` is in use.
    pub open spec fn is_live(self, id: int) -> bool {
        0 <= id < self.slots.len() && self.slots[id] is Live
    }

    /// The contents of the cell with index `id`.
    pub open spec fn cell(self, id: int) -> LispCons {
        match self.slots[id] {
            ConsSlot::Live(c) => c,
            ConsSlot::Free(_) => LispCons { car: nil(), cdr: nil() },
        }
    }

    /// Whether `o` is a cons object that points to a cell in use.
    pub open spec fn is_cons_cell(self, o: LispObject) -> bool {
        &&& is_cons(o)
        &&& (o.0 - 3) % 16 == 0
        &&& self.is_live(cons_id(o) as int)
    }

    /// Whether `o` is a valid object of this heap: a cons object must point
    /// to a cell in use; every other object is valid.
    pub open spec fn valid(self, o: LispObject) -> bool {
        is_cons(o) ==> self.is_cons_cell(o)
    }

    /// The free list is a chain of distinct reclaimed cells, each holding
    /// the index of the next.
    pub open spec fn free_list_wf(self) -> bool {
        &&& self.free_list.no_duplicates()
        &&& forall|i: int|
            0 <= i < self.free_list.len() ==> {
                &&& self.free_list[i] < self.slots.len()
                &&& #[trigger] self.slots[self.free_list[i] as int] == ConsSlot::Free(
                    LispConsChain { chain: next_link(self.free_list, i) },
                )
            }
    }

    /// The invariant of the heap.
    pub open spec fn wf(self) -> bool {
        &&& self.cons_block_index <= CONS_BLOCK_SIZE
        &&& self.slots.len() + CONS_BLOCK_SIZE == self.cons_blocks * CONS_BLOCK_SIZE
            + self.cons_block_index
        &&& self.gcmarkbits.len() == self.cons_blocks * GCMARK_WORDS
        &&& self.slots.len() <= MAX_CONS_CELLS
        &&& self.free_list_wf()
        &&& self.total_free_conses == (CONS_BLOCK_SIZE - self.cons_block_index)
            + self.free_list.len()
        &&& self.cons_cells_consed >= 0
        &&& self.marks_clear()
    }

    /// No mark bit is set: this library never marks a cell, so every block
    /// keeps the zeroed mark words it was created with.
    pub open spec fn marks_clear(self) -> bool {
        forall|k: int| 0 <= k < self.gcmarkbits.len() ==> #[trigger] self.gcmarkbits[k] == 0
    }

    /// Whether the mark bit of the cell with index `id` is set: bit
    /// `i % 64` of word `i / 64` of its block's mark words, where `i` is the
    /// cell's position in its block.
    pub open spec fn cons_marked(self, id: int) -> bool {
        let i = id % (CONS_BLOCK_SIZE as int);
        let word = self.gcmarkbits[(id / (CONS_BLOCK_SIZE as int)) * (GCMARK_WORDS as int) + i
            / (BITS_PER_BITS_WORD as int)];
        (word >> ((i % (BITS_PER_BITS_WORD as int)) as u64)) & 1 == 1
    }

    /// Every cell in use holds valid objects, so that following a car or a
    /// cdr never leads to a cell that is not in use.
    pub open spec fn closed(self) -> bool {
        forall|id: int|
            #[trigger] self.is_live(id) ==> self.valid(self.cell(id).car) && self.valid(
                self.cell(id).cdr,
            )
    }

    /// Whether one more cons can be made without running out of addresses
    /// or overflowing a counter.
    pub open spec fn can_cons(self) -> bool {
        &&& self.slots.len() + CONS_BLOCK_SIZE <= MAX_CONS_CELLS
        &&& self.consing_since_gc + SIZEOF_LISP_CONS <= i64::MAX
        &&& self.cons_cells_consed + 1 <= i64::MAX
    }

    /// The heap after making a cons of `a` and `b`, and the index of the
    /// cell that holds it: the head of the free list when there is one, else
    /// the next cell of the current block, after starting a new block when
    /// the current one is used up.
    pub open spec fn cons_spec(self, a: LispObject, b: LispObject) -> (HeapModel, nat) {
        let cell = ConsSlot::Live(LispCons { car: a, cdr: b });
        if self.free_list.len() > 0 {
            let id = self.free_list[0];
            (
                HeapModel {
                    slots: self.slots.update(id as int, cell),
                    free_list: self.free_list.drop_first(),
                    consing_since_gc: self.consing_since_gc + SIZEOF_LISP_CONS,
                    total_free_conses: self.total_free_conses - 1,
                    cons_cells_consed: self.cons_cells_consed + 1,
                    ..self
                },
                id,
            )
        } else if self.cons_block_index == CONS_BLOCK_SIZE {
            (
                HeapModel {
                    slots: self.slots.push(cell),
                    cons_blocks: self.cons_blocks + 1,
                    cons_block_index: 1,
                    gcmarkbits: self.gcmarkbits + zero_marks(),
                    consing_since_gc: self.consing_since_gc + SIZEOF_LISP_CONS,
                    total_free_conses: self.total_free_conses + CONS_BLOCK_SIZE - 1,
                    cons_cells_consed: self.cons_cells_consed + 1,
                    ..self
                },
                self.slots.len(),
            )
        } else {
            (
                HeapModel {
                    slots: self.slots.push(cell),
                    cons_block_index: self.cons_block_index + 1,
                    consing_since_gc: self.consing_since_gc + SIZEOF_LISP_CONS,
                    total_free_conses: self.total_free_conses - 1,
                    cons_cells_consed: self.cons_cells_consed + 1,
                    ..self
                },
                self.slots.len(),
            )
        }
    }

    /// The heap after the cell `id` is reclaimed: it becomes the head of
    /// the free list and holds the link to the old head; it no longer counts
    /// as consed memory, and it counts as a free cell.
    pub open spec fn free_spec(self, id: int) -> HeapModel {
        let link = if self.free_list.len() > 0 {
            Some(self.free_list[0] as usize)
        } else {
            None
        };
        HeapModel {
            slots: self.slots.update(id, ConsSlot::Free(LispConsChain { chain: link })),
            free_list: seq![id as nat] + self.free_list,
            consing_since_gc: self.consing_since_gc - SIZEOF_LISP_CONS,
            total_free_conses: self.total_free_conses + 1,
            ..self
        }
    }

    /// Whether some cell in use other than `id` holds an object that points
    /// to cell `id`.
    pub open spec fn referenced_elsewhere(self, id: int) -> bool {
        exists|j: int|
            #![trigger self.is_live(j)]
            self.is_live(j) && j != id && (refers_to(self.cell(j).car, id) || refers_to(
                self.cell(j).cdr,
                id,
            ))
    }

    /// The heap with the car of cell `id` replaced by `v`.
    pub open spec fn set_car_spec(self, id: int, v: LispObject) -> HeapModel {
        HeapModel {
            slots: self.slots.update(id, ConsSlot::Live(LispCons { car: v, cdr: self.cell(id).cdr })),
            ..self
        }
    }

    /// The heap with the cdr of cell `id` replaced by `v`.
    pub open spec fn set_cdr_spec(self, id: int, v: LispObject) -> HeapModel {
        HeapModel {
            slots: self.slots.update(id, ConsSlot::Live(LispCons { car: self.cell(id).car, cdr: v })),
            ..self
        }
    }

    /// What `car` gives for `o`: the car of a cons, `nil` for `nil`, and a
    /// `listp` type error for anything else.
    pub open spec fn car_result(self, o: LispObject) -> Result<LispObject, LispError> {
        if is_cons(o) {
            Ok(self.cell(cons_id(o) as int).car)
        } else if o == nil() {
            Ok(nil())
        } else {
            Err(LispError::WrongTypeArgument(listp_symbol(), o))
        }
    }

    /// What `cdr` gives for `o`: the cdr of a cons, `nil` for `nil`, and a
    /// `listp` type error for anything else.
    pub open spec fn cdr_result(self, o: LispObject) -> Result<LispObject, LispError> {
        if is_cons(o) {
            Ok(self.cell(cons_id(o) as int).cdr)
        } else if o == nil() {
            Ok(nil())
        } else {
            Err(LispError::WrongTypeArgument(listp_symbol(), o))
        }
    }

    /// The heap and the result after `(setcar cell v)`: on a cons, its car
    /// becomes `v` and `v` is returned; anything else is a `consp` type
    /// error and leaves the heap as it was.
    pub open spec fn setcar_spec(self, cell: LispObject, v: LispObject) -> (
        HeapModel,
        Result<LispObject, LispError>,
    ) {
        if is_cons(cell) {
            (self.set_car_spec(cons_id(cell) as int, v), Ok(v))
        } else {
            (self, Err(LispError::WrongTypeArgument(consp_symbol(), cell)))
        }
    }

    /// The heap and the result after `(setcdr cell v)`, as for `setcar`.
    pub open spec fn setcdr_spec(self, cell: LispObject, v: LispObject) -> (
        HeapModel,
        Result<LispObject, LispError>,
    ) {
        if is_cons(cell) {
            (self.set_cdr_spec(cons_id(cell) as int, v), Ok(v))
        } else {
            (self, Err(LispError::WrongTypeArgument(consp_symbol(), cell)))
        }
    }
}

/// The cons heap: the cells, their blocks and mark bits, the free list, and
/// the allocation counters.
pub struct ConsHeap {
    cells: Vec<ConsSlot>,
    gcmarkbits: Vec<u64>,
    cons_free_list: Option<usize>,
    free_chain: Ghost<Seq<nat>>,
    cons_blocks: usize,
    cons_block_index: usize,
    consing_since_gc: i64,
    total_free_conses: i64,
    cons_cells_consed: i64,
}

impl View for ConsHeap {
    type V = HeapModel;

    closed spec fn view(&self) -> HeapModel {
        HeapModel {
            slots: self.cells@,
            free_list: self.free_chain@,
            cons_blocks: self.cons_blocks as nat,
            cons_block_index: self.cons_block_index as nat,
            gcmarkbits: self.gcmarkbits@,
            consing_since_gc: self.consing_since_gc as int,
            total_free_conses: self.total_free_conses as int,
            cons_cells_consed: self.cons_cells_consed as int,
        }
    }
}

impl ConsHeap {
    /// The invariant of the heap: that of its model, and the head of the
    /// free list is the first cell of the chain.
    pub closed spec fn wf(&self) -> bool {
        &&& self@.wf()
        &&& match self.cons_free_list {
            None => self.free_chain@.len() == 0,
            Some(h) => self.free_chain@.len() > 0 && self.free_chain@[0] == h as nat,
        }
    }

    /// A heap that meets its invariant has a model that meets the model's
    /// invariant, so the laws on `HeapModel` apply to it.
    pub proof fn lemma_model_wf(&self)
        requires
            self.wf(),
        ensures
            self@.wf(),
    {
    }

    /// An empty heap: no blocks, no cells, an empty free list and zero
    /// counters. The current block counts as used up, so that the first
    /// cons starts a block.
    pub fn new() -> (heap: ConsHeap)
        ensures
            heap.wf(),
            heap@.wf(),
            heap@.closed(),
            heap@.slots.len() == 0,
            heap@.free_list.len() == 0,
            heap@.cons_blocks == 0,
            heap@.cons_block_index == CONS_BLOCK_SIZE,
            heap@.gcmarkbits.len() == 0,
            heap@.consing_since_gc == 0,
            heap@.total_free_conses == 0,
            heap@.cons_cells_consed == 0,
    {
        ConsHeap {
            cells: Vec::new(),
            gcmarkbits: Vec::new(),
            cons_free_list: None,
            free_chain: Ghost(Seq::empty()),
            cons_blocks: 0,
            cons_block_index: CONS_BLOCK_SIZE,
            consing_since_gc: 0,
            total_free_conses: 0,
            cons_cells_consed: 0,
        }
    }

    /// Number of cells handed out so far.
    pub fn cell_count(&self) -> (n: usize)
        ensures
            n == self@.slots.len(),
    {
        self.cells.len()
    }

    /// Number of cons blocks allocated.
    pub fn cons_blocks(&self) -> (n: usize)
        ensures
            n == self@.cons_blocks,
    {
        self.cons_blocks
    }

    /// Number of cells of the current block that were handed out.
    pub fn cons_block_index(&self) -> (n: usize)
        ensures
            n == self@.cons_block_index,
    {
        self.cons_block_index
    }

    /// The mark bits of all blocks.
    pub fn gcmarkbits(&self) -> (marks: &Vec<u64>)
        ensures
            marks@ == self@.gcmarkbits,
    {
        &self.gcmarkbits
    }

    /// Bytes of cons cells allocated since the last collection.
    pub fn consing_since_gc(&self) -> (n: i64)
        ensures
            n == self@.consing_since_gc,
    {
        self.consing_since_gc
    }

    /// Number of free cons cells.
    pub fn total_free_conses(&self) -> (n: i64)
        ensures
            n == self@.total_free_conses,
    {
        self.total_free_conses
    }

    /// Number of cons cells made so far.
    pub fn cons_cells_consed(&self) -> (n: i64)
        ensures
            n == self@.cons_cells_consed,
    {
        self.cons_cells_consed
    }
}

/// Appends the zeroed mark words of one fresh block.
fn clear_block_marks(marks: &mut Vec<u64>)
    ensures
        final(marks)@ == old(marks)@ + zero_marks(),
{
    let mut i: usize = 0;
    while i < GCMARK_WORDS
        invariant
            i <= GCMARK_WORDS,
            marks@ == old(marks)@ + Seq::new(i as nat, |j: int| 0u64),
        decreases GCMARK_WORDS - i,
    {
        marks.push(0);
        i = i + 1;
        assert(marks@ =~= old(marks)@ + Seq::new(i as nat, |j: int| 0u64));
    }
    assert(Seq::new(i as nat, |j: int| 0u64) =~= zero_marks());
}

/// Whether `x` is a cons.
pub fn CONSP(x: LispObject) -> (r: bool)
    ensures
        r == is_cons(x),
        r == (x.0 % 8 == 3),
{
    XTYPE(x) == LispType::Lisp_Cons
}

/// Whether `object` is `nil`.
pub fn NILP(object: LispObject) -> (r: bool)
    ensures
        r == (object == nil()),
        r == (object.0 == 0),
{
    object == Qnil()
}

/// Return `t` if `object` is not a cons cell; this includes `nil`.
pub fn Fatom(object: LispObject) -> (r: LispObject)
    ensures
        r == atom_spec(object),
        r.0 == (if object.0 % 8 == 3 {
            0u64
        } else {
            8u64
        }),
{
    if CONSP(object) {
        Qnil()
    } else {
        LispObject::constant_t()
    }
}

/// Return `t` if `object` is a cons cell.
pub fn Fconsp(object: LispObject) -> (r: LispObject)
    ensures
        r == consp_spec(object),
        r.0 == (if object.0 % 8 == 3 {
            8u64
        } else {
            0u64
        }),
{
    if CONSP(object) {
        LispObject::constant_t()
    } else {
        Qnil()
    }
}

/// Return `t` if `object` is a list, that is a cons cell or `nil`;
/// otherwise return `nil`.
pub fn Flistp(object: LispObject) -> (r: LispObject)
    ensures
        r == listp_spec(object),
        r.0 == (if object.0 % 8 == 3 || object.0 == 0 {
            8u64
        } else {
            0u64
        }),
{
    if CONSP(object) || NILP(object) {
        LispObject::constant_t()
    } else {
        Qnil()
    }
}

/// Return `t` if `object` is not a list. Lists include `nil`.
pub fn Fnlistp(object: LispObject) -> (r: LispObject)
    ensures
        r == nlistp_spec(object),
        r.0 == (if object.0 % 8 == 3 || object.0 == 0 {
            0u64
        } else {
            8u64
        }),
{
    if CONSP(object) || NILP(object) {
        Qnil()
    } else {
        LispObject::constant_t()
    }
}

/// The index of the cell that the cons object `a` points to.
fn XCONS(a: LispObject) -> (id: usize)
    requires
        is_cons(a),
        cons_id(a) <= usize::MAX,
    ensures
        id == cons_id(a),
{
    let ptr = XUNTAG(a, LispType::Lisp_Cons);
    (ptr / 16) as usize
}

/// The cons object for the cell at address `ptr`.
fn XSETCONS(ptr: u64) -> (o: LispObject)
    requires
        ptr % 16 == 0,
        ptr + 7 <= u64::MAX,
    ensures
        o == tagged(ptr, LispType::Lisp_Cons),
        is_cons(o),
        cons_id(o) == ptr / 16,
        (o.0 - 3) % 16 == 0,
{
    make_lisp_ptr(ptr, LispType::Lisp_Cons)
}

/// The car of the cons cell that `object` points to.
fn XCAR(heap: &ConsHeap, object: LispObject) -> (r: LispObject)
    requires
        heap@.is_cons_cell(object),
    ensures
        r == heap@.cell(cons_id(object) as int).car,
{
    assert(heap.cells.len() == heap.cells@.len());
    let id = XCONS(object);
    match heap.cells[id] {
        ConsSlot::Live(c) => c.car,
        ConsSlot::Free(_) => Qnil(),
    }
}

/// The cdr of the cons cell that `object` points to.
fn XCDR(heap: &ConsHeap, object: LispObject) -> (r: LispObject)
    requires
        heap@.is_cons_cell(object),
    ensures
        r == heap@.cell(cons_id(object) as int).cdr,
{
    assert(heap.cells.len() == heap.cells@.len());
    let id = XCONS(object);
    match heap.cells[id] {
        ConsSlot::Live(c) => c.cdr,
        ConsSlot::Free(_) => Qnil(),
    }
}

/// Set the car of the cons cell that `c` points to.
fn XSETCAR(heap: &mut ConsHeap, c: LispObject, n: LispObject)
    requires
        old(heap)@.is_cons_cell(c),
    ensures
        final(heap)@ == old(heap)@.set_car_spec(cons_id(c) as int, n),
        final(heap).cons_free_list == old(heap).cons_free_list,
{
    assert(heap.cells.len() == heap.cells@.len());
    let id = XCONS(c);
    let cdr = match heap.cells[id] {
        ConsSlot::Live(cell) => cell.cdr,
        ConsSlot::Free(_) => Qnil(),
    };
    heap.cells.set(id, ConsSlot::Live(LispCons { car: n, cdr }));
}

/// Set the cdr of the cons cell that `c` points to.
fn XSETCDR(heap: &mut ConsHeap, c: LispObject, n: LispObject)
    requires
        old(heap)@.is_cons_cell(c),
    ensures
        final(heap)@ == old(heap)@.set_cdr_spec(cons_id(c) as int, n),
        final(heap).cons_free_list == old(heap).cons_free_list,
{
    assert(heap.cells.len() == heap.cells@.len());
    let id = XCONS(c);
    let car = match heap.cells[id] {
        ConsSlot::Live(cell) => cell.car,
        ConsSlot::Free(_) => Qnil(),
    };
    heap.cells.set(id, ConsSlot::Live(LispCons { car, cdr: n }));
}

/// Take the car of a cons cell; `nil` for `nil`; a `listp` type error for
/// anything else.
pub fn car(heap: &ConsHeap, object: LispObject) -> (r: Result<LispObject, LispError>)
    requires
        heap.wf(),
        heap@.valid(object),
    ensures
        r == heap@.car_result(object),
        heap@.closed() && r is Ok ==> heap@.valid(r->Ok_0),
        object.0 % 8 == 3 ==> r == Ok::<LispObject, LispError>(
            heap@.cell(cons_id(object) as int).car,
        ),
        object.0 == 0 ==> r == Ok::<LispObject, LispError>(LispObject(0)),
        !(object.0 % 8 == 3 || object.0 == 0) ==> r == Err::<LispObject, LispError>(
            LispError::WrongTypeArgument(LispObject(24), object),
        ),
{
    if CONSP(object) {
        Ok(XCAR(heap, object))
    } else if NILP(object) {
        Ok(Qnil())
    } else {
        Err(wrong_type_argument(Qlistp(), object))
    }
}

/// Take the cdr of a cons cell; `nil` for `nil`; a `listp` type error for
/// anything else.
pub fn cdr(heap: &ConsHeap, object: LispObject) -> (r: Result<LispObject, LispError>)
    requires
        heap.wf(),
        heap@.valid(object),
    ensures
        r == heap@.cdr_result(object),
        heap@.closed() && r is Ok ==> heap@.valid(r->Ok_0),
        object.0 % 8 == 3 ==> r == Ok::<LispObject, LispError>(
            heap@.cell(cons_id(object) as int).cdr,
        ),
        object.0 == 0 ==> r == Ok::<LispObject, LispError>(LispObject(0)),
        !(object.0 % 8 == 3 || object.0 == 0) ==> r == Err::<LispObject, LispError>(
            LispError::WrongTypeArgument(LispObject(24), object),
        ),
{
    if CONSP(object) {
        Ok(XCDR(heap, object))
    } else if NILP(object) {
        Ok(Qnil())
    } else {
        Err(wrong_type_argument(Qlistp(), object))
    }
}

/// Return the car of `list`. If `list` is `nil`, return `nil`. Error if
/// `list` is neither `nil` nor a cons cell.
pub fn Fcar(heap: &ConsHeap, list: LispObject) -> (r: Result<LispObject, LispError>)
    requires
        heap.wf(),
        heap@.valid(list),
    ensures
        r == heap@.car_result(list),
        heap@.closed() && r is Ok ==> heap@.valid(r->Ok_0),
        list.0 % 8 == 3 ==> r == Ok::<LispObject, LispError>(
            heap@.cell(cons_id(list) as int).car,
        ),
        list.0 == 0 ==> r == Ok::<LispObject, LispError>(LispObject(0)),
        !(list.0 % 8 == 3 || list.0 == 0) ==> r == Err::<LispObject, LispError>(
            LispError::WrongTypeArgument(LispObject(24), list),
        ),
{
    car(heap, list)
}

/// Return the cdr of `list`. If `list` is `nil`, return `nil`. Error if
/// `list` is neither `nil` nor a cons cell.
pub fn Fcdr(heap: &ConsHeap, list: LispObject) -> (r: Result<LispObject, LispError>)
    requires
        heap.wf(),
        heap@.valid(list),
    ensures
        r == heap@.cdr_result(list),
        heap@.closed() && r is Ok ==> heap@.valid(r->Ok_0),
        list.0 % 8 == 3 ==> r == Ok::<LispObject, LispError>(
            heap@.cell(cons_id(list) as int).cdr,
        ),
        list.0 == 0 ==> r == Ok::<LispObject, LispError>(LispObject(0)),
        !(list.0 % 8 == 3 || list.0 == 0) ==> r == Err::<LispObject, LispError>(
            LispError::WrongTypeArgument(LispObject(24), list),
        ),
{
    cdr(heap, list)
}

/// Replacing the car or the cdr of a cell in use keeps the heap's
/// invariant, and leaves the set of cells in use and the validity of every
/// object as they were; with a valid object, a closed heap stays closed.
pub proof fn lemma_set_keeps_wf(m: HeapModel, id: int, v: LispObject)
    requires
        m.wf(),
        m.is_live(id),
    ensures
        m.set_car_spec(id, v).wf(),
        m.set_cdr_spec(id, v).wf(),
        m.closed() && m.valid(v) ==> m.set_car_spec(id, v).closed(),
        m.closed() && m.valid(v) ==> m.set_cdr_spec(id, v).closed(),
        forall|o: LispObject| #[trigger] m.set_car_spec(id, v).valid(o) == m.valid(o),
        forall|o: LispObject| #[trigger] m.set_cdr_spec(id, v).valid(o) == m.valid(o),
{
    let m1 = m.set_car_spec(id, v);
    let m2 = m.set_cdr_spec(id, v);
    assert forall|j: int| #[trigger] m1.is_live(j) == m.is_live(j) && m2.is_live(j) == m.is_live(
        j,
    ) by {}
    assert forall|o: LispObject| #[trigger] m1.valid(o) == m.valid(o) by {
        if is_cons(o) {
            assert(m1.is_live(cons_id(o) as int) == m.is_live(cons_id(o) as int));
        }
    }
    assert forall|o: LispObject| #[trigger] m2.valid(o) == m.valid(o) by {
        if is_cons(o) {
            assert(m2.is_live(cons_id(o) as int) == m.is_live(cons_id(o) as int));
        }
    }
    assert forall|i: int| 0 <= i < m.free_list.len() implies m.free_list[i] as int != id by {
        assert(m.slots[m.free_list[i] as int] == ConsSlot::Free(
            LispConsChain { chain: next_link(m.free_list, i) },
        ));
    }
    assert forall|i: int| 0 <= i < m1.free_list.len() implies {
        &&& m1.free_list[i] < m1.slots.len()
        &&& #[trigger] m1.slots[m1.free_list[i] as int] == ConsSlot::Free(
            LispConsChain { chain: next_link(m1.free_list, i) },
        )
    } by {
        assert(m.slots[m.free_list[i] as int] == ConsSlot::Free(
            LispConsChain { chain: next_link(m.free_list, i) },
        ));
    }
    assert forall|i: int| 0 <= i < m2.free_list.len() implies {
        &&& m2.free_list[i] < m2.slots.len()
        &&& #[trigger] m2.slots[m2.free_list[i] as int] == ConsSlot::Free(
            LispConsChain { chain: next_link(m2.free_list, i) },
        )
    } by {
        assert(m.slots[m.free_list[i] as int] == ConsSlot::Free(
            LispConsChain { chain: next_link(m.free_list, i) },
        ));
    }
    assert(m1.free_list_wf());
    assert(m2.free_list_wf());
    if m.closed() && m.valid(v) {
        assert forall|j: int| #[trigger] m1.is_live(j) implies m1.valid(m1.cell(j).car)
            && m1.valid(m1.cell(j).cdr) by {
            assert(m.is_live(j));
            assert(m1.valid(m.cell(j).car) && m1.valid(m.cell(j).cdr));
        }
        assert forall|j: int| #[trigger] m2.is_live(j) implies m2.valid(m2.cell(j).car)
            && m2.valid(m2.cell(j).cdr) by {
            assert(m.is_live(j));
            assert(m2.valid(m.cell(j).car) && m2.valid(m.cell(j).cdr));
        }
    }
}

/// Set the car of `cell` to be `newcar`. Returns `newcar`. Error if `cell`
/// is not a cons cell.
///
/// This heap has no read-only (pure) storage: every cons cell of it may be
/// written, so there is no error for writing to a read-only cell.
pub fn Fsetcar(heap: &mut ConsHeap, cell: LispObject, newcar: LispObject) -> (r: Result<
    LispObject,
    LispError,
>)
    requires
        old(heap).wf(),
        old(heap)@.valid(cell),
    ensures
        final(heap).wf(),
        final(heap)@ == old(heap)@.setcar_spec(cell, newcar).0,
        r == old(heap)@.setcar_spec(cell, newcar).1,
        final(heap)@.wf(),
        old(heap)@.closed() && old(heap)@.valid(newcar) ==> final(heap)@.closed(),
        final(heap)@.slots.len() == old(heap)@.slots.len(),
        final(heap)@.free_list == old(heap)@.free_list,
        final(heap)@.cons_blocks == old(heap)@.cons_blocks,
        final(heap)@.cons_block_index == old(heap)@.cons_block_index,
        final(heap)@.gcmarkbits == old(heap)@.gcmarkbits,
        final(heap)@.consing_since_gc == old(heap)@.consing_since_gc,
        final(heap)@.total_free_conses == old(heap)@.total_free_conses,
        final(heap)@.cons_cells_consed == old(heap)@.cons_cells_consed,
        forall|j: int| #[trigger] old(heap)@.is_live(j) ==> final(heap)@.is_live(j),
        forall|j: int|
            0 <= j < old(heap)@.slots.len() && !(cell.0 % 8 == 3 && j == cons_id(cell))
                ==> #[trigger] final(heap)@.slots[j] == old(heap)@.slots[j],
        cell.0 % 8 == 3 ==> r == Ok::<LispObject, LispError>(newcar) && final(heap)@.cell(
            cons_id(cell) as int,
        ).car == newcar && final(heap)@.cell(cons_id(cell) as int).cdr == old(heap)@.cell(
            cons_id(cell) as int,
        ).cdr,
        cell.0 % 8 != 3 ==> r == Err::<LispObject, LispError>(
            LispError::WrongTypeArgument(LispObject(16), cell),
        ),
{
    let checked = CHECK_TYPE(CONSP(cell), Qconsp(), cell);
    if let Err(e) = checked {
        return Err(e);
    }
    proof {
        lemma_set_keeps_wf(heap@, cons_id(cell) as int, newcar);
    }
    XSETCAR(heap, cell, newcar);
    Ok(newcar)
}

/// Set the cdr of `cell` to be `newcdr`. Returns `newcdr`. Error if `cell`
/// is not a cons cell.
///
/// This heap has no read-only (pure) storage: every cons cell of it may be
/// written, so there is no error for writing to a read-only cell.
pub fn Fsetcdr(heap: &mut ConsHeap, cell: LispObject, newcdr: LispObject) -> (r: Result<
    LispObject,
    LispError,
>)
    requires
        old(heap).wf(),
        old(heap)@.valid(cell),
    ensures
        final(heap).wf(),
        final(heap)@ == old(heap)@.setcdr_spec(cell, newcdr).0,
        r == old(heap)@.setcdr_spec(cell, newcdr).1,
        final(heap)@.wf(),
        old(heap)@.closed() && old(heap)@.valid(newcdr) ==> final(heap)@.closed(),
        final(heap)@.slots.len() == old(heap)@.slots.len(),
        final(heap)@.free_list == old(heap)@.free_list,
        final(heap)@.cons_blocks == old(heap)@.cons_blocks,
        final(heap)@.cons_block_index == old(heap)@.cons_block_index,
        final(heap)@.gcmarkbits == old(heap)@.gcmarkbits,
        final(heap)@.consing_since_gc == old(heap)@.consing_since_gc,
        final(heap)@.total_free_conses == old(heap)@.total_free_conses,
        final(heap)@.cons_cells_consed == old(heap)@.cons_cells_consed,
        forall|j: int| #[trigger] old(heap)@.is_live(j) ==> final(heap)@.is_live(j),
        forall|j: int|
            0 <= j < old(heap)@.slots.len() && !(cell.0 % 8 == 3 && j == cons_id(cell))
                ==> #[trigger] final(heap)@.slots[j] == old(heap)@.slots[j],
        cell.0 % 8 == 3 ==> r == Ok::<LispObject, LispError>(newcdr) && final(heap)@.cell(
            cons_id(cell) as int,
        ).cdr == newcdr && final(heap)@.cell(cons_id(cell) as int).car == old(heap)@.cell(
            cons_id(cell) as int,
        ).car,
        cell.0 % 8 != 3 ==> r == Err::<LispObject, LispError>(
            LispError::WrongTypeArgument(LispObject(16), cell),
        ),
{
    let checked = CHECK_TYPE(CONSP(cell), Qconsp(), cell);
    if let Err(e) = checked {
        return Err(e);
    }
    proof {
        lemma_set_keeps_wf(heap@, cons_id(cell) as int, newcdr);
    }
    XSETCDR(heap, cell, newcdr);
    Ok(newcdr)
}

/// Every cell of an allocated block, in use or not, has a clear mark bit;
/// in particular the cells that are not in use do.
pub proof fn lemma_block_cells_unmarked(m: HeapModel, id: int)
    requires
        m.wf(),
        0 <= id < m.cons_blocks * CONS_BLOCK_SIZE,
    ensures
        !m.cons_marked(id),
{
    let i = id % (CONS_BLOCK_SIZE as int);
    let b = id / (CONS_BLOCK_SIZE as int);
    assert(0 <= b < m.cons_blocks) by (nonlinear_arith)
        requires
            0 <= id < m.cons_blocks * 100,
            b == id / 100,
    ;
    let k = b * (GCMARK_WORDS as int) + i / (BITS_PER_BITS_WORD as int);
    assert(0 <= k < m.gcmarkbits.len()) by (nonlinear_arith)
        requires
            0 <= b < m.cons_blocks,
            0 <= i < 100,
            k == b * 2 + i / 64,
            m.gcmarkbits.len() == m.cons_blocks * 2,
    ;
    assert(m.gcmarkbits[k] == 0);
    let sh = (i % (BITS_PER_BITS_WORD as int)) as u64;
    assert((0u64 >> sh) & 1 == 0) by (bit_vector);
}

/// Making a cons keeps the heap's invariant. The cell it uses was not in
/// use before and holds the new pair after; every cell in use before stays in
/// use with its contents, so every valid object stays valid; with valid
/// components, a closed heap stays closed.
pub proof fn lemma_cons_keeps_wf(m: HeapModel, a: LispObject, b: LispObject)
    requires
        m.wf(),
    ensures
        ({
            let (m2, id) = m.cons_spec(a, b);
            &&& m.can_cons() ==> m2.wf()
            &&& !m.is_live(id as int)
            &&& m2.is_live(id as int)
            &&& m2.cell(id as int) == LispCons { car: a, cdr: b }
            &&& id <= MAX_CONS_CELLS
            &&& forall|j: int|
                m.is_live(j) ==> #[trigger] m2.is_live(j) && m2.cell(j) == m.cell(j)
            &&& forall|o: LispObject| m.valid(o) ==> #[trigger] m2.valid(o)
            &&& m.closed() && m.valid(a) && m.valid(b) ==> m2.closed()
        }),
{
    let (m2, id) = m.cons_spec(a, b);
    let fl = m.free_list;
    if fl.len() > 0 {
        assert(m.slots[fl[0] as int] == ConsSlot::Free(LispConsChain { chain: next_link(fl, 0) }));
        let fl2 = m2.free_list;
        assert forall|i: int| 0 <= i < fl2.len() implies {
            &&& fl2[i] < m2.slots.len()
            &&& #[trigger] m2.slots[fl2[i] as int] == ConsSlot::Free(
                LispConsChain { chain: next_link(fl2, i) },
            )
        } by {
            assert(fl2[i] == fl[i + 1]);
            assert(m.slots[fl[i + 1] as int] == ConsSlot::Free(
                LispConsChain { chain: next_link(fl, i + 1) },
            ));
            assert(fl[i + 1] != fl[0]);
            assert(next_link(fl2, i) == next_link(fl, i + 1));
        }
        assert(fl2.no_duplicates()) by {
            assert forall|i: int, j: int|
                0 <= i < fl2.len() && 0 <= j < fl2.len() && i != j implies fl2[i] != fl2[j] by {
                assert(fl2[i] == fl[i + 1] && fl2[j] == fl[j + 1]);
            }
        }
        assert(m2.free_list_wf());
    } else {
        assert forall|i: int| 0 <= i < m2.free_list.len() implies {
            &&& m2.free_list[i] < m2.slots.len()
            &&& #[trigger] m2.slots[m2.free_list[i] as int] == ConsSlot::Free(
                LispConsChain { chain: next_link(m2.free_list, i) },
            )
        } by {}
        assert(m2.free_list_wf());
        if m.cons_block_index == CONS_BLOCK_SIZE {
            assert(zero_marks().len() == GCMARK_WORDS);
            assert(m2.cons_blocks * GCMARK_WORDS == m.cons_blocks * GCMARK_WORDS + GCMARK_WORDS)
                by (nonlinear_arith)
                requires
                    m2.cons_blocks == m.cons_blocks + 1,
            ;
        }
    }
    assert forall|j: int| m.is_live(j) implies #[trigger] m2.is_live(j) && m2.cell(j) == m.cell(
        j,
    ) by {
        if fl.len() > 0 {
            assert(m.slots[fl[0] as int] == ConsSlot::Free(
                LispConsChain { chain: next_link(fl, 0) },
            ));
        }
    }
    assert forall|o: LispObject| m.valid(o) implies #[trigger] m2.valid(o) by {
        if is_cons(o) {
            assert(m2.is_live(cons_id(o) as int));
        }
    }
    if m.closed() && m.valid(a) && m.valid(b) {
        assert forall|j: int| #[trigger] m2.is_live(j) implies m2.valid(m2.cell(j).car)
            && m2.valid(m2.cell(j).cdr) by {
            if j != id {
                assert(m.is_live(j));
                assert(m2.valid(m.cell(j).car) && m2.valid(m.cell(j).cdr));
            } else {
                assert(m2.valid(a) && m2.valid(b));
            }
        }
    }
}

/// Create a new cons, give it `car` and `cdr` as components, and return it.
///
/// The cell comes from the head of the free list when the list is not
/// empty; otherwise it is the next cell of the current block, and a new
/// block, with zeroed mark bits, is started when the current one is used up.
/// Each cons counts `SIZEOF_LISP_CONS` bytes of consing and one cell consed,
/// and takes one cell off the count of free cells.
pub fn Fcons(heap: &mut ConsHeap, car: LispObject, cdr: LispObject) -> (val: LispObject)
    requires
        old(heap).wf(),
        old(heap)@.can_cons(),
    ensures
        final(heap).wf(),
        final(heap)@ == old(heap)@.cons_spec(car, cdr).0,
        val == cons_object(old(heap)@.cons_spec(car, cdr).1),
        cons_id(val) == old(heap)@.cons_spec(car, cdr).1,
        final(heap)@.wf(),
        final(heap)@.is_cons_cell(val),
        !old(heap)@.is_live(cons_id(val) as int),
        !final(heap)@.cons_marked(cons_id(val) as int),
        final(heap)@.cell(cons_id(val) as int) == (LispCons { car, cdr }),
        forall|j: int|
            old(heap)@.is_live(j) ==> #[trigger] final(heap)@.is_live(j) && final(heap)@.cell(j)
                == old(heap)@.cell(j),
        old(heap)@.closed() && old(heap)@.valid(car) && old(heap)@.valid(cdr)
            ==> final(heap)@.closed(),
        val.0 % 8 == 3,
        val.0 == 16 * cons_id(val) + 3,
        final(heap)@.cons_cells_consed == old(heap)@.cons_cells_consed + 1,
        final(heap)@.consing_since_gc == old(heap)@.consing_since_gc + 16,
        forall|j: int|
            0 <= j < old(heap)@.slots.len() && j != cons_id(val) ==> #[trigger] final(heap)@.slots[j]
                == old(heap)@.slots[j],
        old(heap)@.free_list.len() > 0 ==> {
            &&& cons_id(val) == old(heap)@.free_list[0]
            &&& final(heap)@.free_list == old(heap)@.free_list.drop_first()
            &&& final(heap)@.slots.len() == old(heap)@.slots.len()
            &&& final(heap)@.cons_blocks == old(heap)@.cons_blocks
            &&& final(heap)@.cons_block_index == old(heap)@.cons_block_index
            &&& final(heap)@.gcmarkbits == old(heap)@.gcmarkbits
            &&& final(heap)@.total_free_conses == old(heap)@.total_free_conses - 1
        },
        old(heap)@.free_list.len() == 0 ==> {
            &&& cons_id(val) == old(heap)@.slots.len()
            &&& final(heap)@.slots.len() == old(heap)@.slots.len() + 1
            &&& final(heap)@.free_list.len() == 0
        },
        old(heap)@.free_list.len() == 0 && old(heap)@.cons_block_index < CONS_BLOCK_SIZE ==> {
            &&& final(heap)@.cons_blocks == old(heap)@.cons_blocks
            &&& final(heap)@.cons_block_index == old(heap)@.cons_block_index + 1
            &&& final(heap)@.gcmarkbits == old(heap)@.gcmarkbits
            &&& final(heap)@.total_free_conses == old(heap)@.total_free_conses - 1
        },
        old(heap)@.free_list.len() == 0 && old(heap)@.cons_block_index == CONS_BLOCK_SIZE ==> {
            &&& final(heap)@.cons_blocks == old(heap)@.cons_blocks + 1
            &&& final(heap)@.cons_block_index == 1
            &&& final(heap)@.gcmarkbits.len() == old(heap)@.gcmarkbits.len() + 2
            &&& final(heap)@.gcmarkbits.subrange(0, old(heap)@.gcmarkbits.len() as int)
                == old(heap)@.gcmarkbits
            &&& forall|k: int|
                old(heap)@.gcmarkbits.len() <= k < final(heap)@.gcmarkbits.len()
                    ==> #[trigger] final(heap)@.gcmarkbits[k] == 0
            &&& final(heap)@.total_free_conses == old(heap)@.total_free_conses
                + CONS_BLOCK_SIZE - 1
        },
{
    let ghost m0 = heap@;
    proof {
        lemma_cons_keeps_wf(m0, car, cdr);
    }
    let ghost target = m0.cons_spec(car, cdr);
    assert(heap.cells.len() == heap.cells@.len());
    let id: usize;
    match heap.cons_free_list {
        Some(head) => {
            // Use the current head of the free list for this cons cell, and
            // remove it from the free list.
            proof {
                assert(m0.slots[m0.free_list[0] as int] == ConsSlot::Free(
                    LispConsChain { chain: next_link(m0.free_list, 0) },
                ));
            }
            let next = match heap.cells[head] {
                ConsSlot::Free(link) => link.chain,
                ConsSlot::Live(_) => None,
            };
            heap.cons_free_list = next;
            heap.free_chain = Ghost(heap.free_chain@.drop_first());
            heap.cells.set(head, ConsSlot::Live(LispCons { car: Qnil(), cdr: Qnil() }));
            id = head;
            proof {
                if m0.free_list.len() > 1 {
                    assert(heap.free_chain@[0] == m0.free_list[1]);
                    assert(m0.slots[m0.free_list[1] as int] == ConsSlot::Free(
                        LispConsChain { chain: next_link(m0.free_list, 1) },
                    ));
                    assert(next == Some(m0.free_list[1] as usize));
                } else {
                    assert(next.is_none());
                }
            }
        },
        None => {
            // Otherwise take the next cell of the current block, starting a
            // new block when it is used up.
            if heap.cons_block_index == CONS_BLOCK_SIZE {
                clear_block_marks(&mut heap.gcmarkbits);
                heap.cons_blocks = heap.cons_blocks + 1;
                heap.cons_block_index = 0;
                heap.total_free_conses = heap.total_free_conses + CONS_BLOCK_SIZE as i64;
            }
            id = heap.cells.len();
            heap.cells.push(ConsSlot::Live(LispCons { car: Qnil(), cdr: Qnil() }));
            heap.cons_block_index = heap.cons_block_index + 1;
        },
    }
    assert(id == target.1);
    let val = XSETCONS(id as u64 * SIZEOF_LISP_CONS);
    XSETCAR(heap, val, car);
    XSETCDR(heap, val, cdr);
    heap.consing_since_gc = heap.consing_since_gc + SIZEOF_LISP_CONS as i64;
    heap.total_free_conses = heap.total_free_conses - 1;
    heap.cons_cells_consed = heap.cons_cells_consed + 1;
    assert(heap@.slots =~= target.0.slots);
    assert(heap@ =~= target.0);
    proof {
        lemma_block_cells_unmarked(heap@, id as int);
    }
    val
}

/// Explicitly free a cons cell by putting it on the free list, so that the
/// next cons reuses it. The caller must no longer use any object that points
/// to the cell: such an object stops being valid.
pub fn free_cons(heap: &mut ConsHeap, cons: LispObject)
    requires
        old(heap).wf(),
        old(heap)@.is_cons_cell(cons),
        old(heap)@.consing_since_gc - SIZEOF_LISP_CONS >= i64::MIN,
        old(heap)@.total_free_conses + 1 <= i64::MAX,
    ensures
        final(heap).wf(),
        final(heap)@.wf(),
        final(heap)@ == old(heap)@.free_spec(cons_id(cons) as int),
        !final(heap)@.is_live(cons_id(cons) as int),
        forall|j: int|
            old(heap)@.is_live(j) && j != cons_id(cons) ==> #[trigger] final(heap)@.is_live(j)
                && final(heap)@.cell(j) == old(heap)@.cell(j),
        old(heap)@.closed() && !old(heap)@.referenced_elsewhere(cons_id(cons) as int)
            ==> final(heap)@.closed(),
        final(heap)@.free_list.len() == old(heap)@.free_list.len() + 1,
        final(heap)@.free_list[0] == cons_id(cons),
        final(heap)@.free_list.drop_first() == old(heap)@.free_list,
        final(heap)@.slots.len() == old(heap)@.slots.len(),
        forall|j: int|
            0 <= j < old(heap)@.slots.len() && j != cons_id(cons) ==> #[trigger] final(heap)@.slots[j]
                == old(heap)@.slots[j],
        final(heap)@.total_free_conses == old(heap)@.total_free_conses + 1,
        final(heap)@.consing_since_gc == old(heap)@.consing_since_gc - 16,
        final(heap)@.cons_cells_consed == old(heap)@.cons_cells_consed,
        final(heap)@.cons_blocks == old(heap)@.cons_blocks,
        final(heap)@.cons_block_index == old(heap)@.cons_block_index,
        final(heap)@.gcmarkbits == old(heap)@.gcmarkbits,
{
    let ghost m = heap@;
    let ghost id = cons_id(cons) as int;
    assert(heap.cells.len() == heap.cells@.len());
    let idx = XCONS(cons);
    let link = LispConsChain { chain: heap.cons_free_list };
    heap.cells.set(idx, ConsSlot::Free(link));
    heap.cons_free_list = Some(idx);
    heap.free_chain = Ghost(seq![idx as nat] + heap.free_chain@);
    heap.consing_since_gc = heap.consing_since_gc - SIZEOF_LISP_CONS as i64;
    heap.total_free_conses = heap.total_free_conses + 1;
    proof {
        let m2 = m.free_spec(id);
        assert(heap@.slots =~= m2.slots);
        assert(heap@.free_list =~= m2.free_list);
        assert(heap@ =~= m2);
        let fl = m.free_list;
        let fl2 = m2.free_list;
        assert forall|i: int| 0 <= i < fl.len() implies fl[i] as int != id by {
            assert(m.slots[fl[i] as int] == ConsSlot::Free(
                LispConsChain { chain: next_link(fl, i) },
            ));
        }
        if fl.len() > 0 {
            assert(m.slots[fl[0] as int] == ConsSlot::Free(
                LispConsChain { chain: next_link(fl, 0) },
            ));
        }
        assert forall|i: int| 0 <= i < fl2.len() implies {
            &&& fl2[i] < m2.slots.len()
            &&& #[trigger] m2.slots[fl2[i] as int] == ConsSlot::Free(
                LispConsChain { chain: next_link(fl2, i) },
            )
        } by {
            if i > 0 {
                assert(fl2[i] == fl[i - 1]);
                assert(m.slots[fl[i - 1] as int] == ConsSlot::Free(
                    LispConsChain { chain: next_link(fl, i - 1) },
                ));
                assert(next_link(fl2, i) == next_link(fl, i - 1));
            }
        }
        assert(fl2.no_duplicates()) by {
            assert forall|i: int, j: int|
                0 <= i < fl2.len() && 0 <= j < fl2.len() && i != j implies fl2[i] != fl2[j] by {
                if i > 0 && j > 0 {
                    assert(fl2[i] == fl[i - 1] && fl2[j] == fl[j - 1]);
                } else if i == 0 {
                    assert(fl2[j] == fl[j - 1]);
                } else {
                    assert(fl2[i] == fl[i - 1]);
                }
            }
        }
        assert(m2.free_list_wf());
        if m.closed() && !m.referenced_elsewhere(id) {
            assert forall|j: int| #[trigger] m2.is_live(j) implies m2.valid(m2.cell(j).car)
                && m2.valid(m2.cell(j).cdr) by {
                assert(m.is_live(j) && j != id);
                assert(m.valid(m.cell(j).car) && m.valid(m.cell(j).cdr));
                if is_cons(m.cell(j).car) {
                    assert(m2.is_live(cons_id(m.cell(j).car) as int));
                }
                if is_cons(m.cell(j).cdr) {
                    assert(m2.is_live(cons_id(m.cell(j).cdr) as int));
                }
            }
        }
    }
}

} // verus!
