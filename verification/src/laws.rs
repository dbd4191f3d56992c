//! Laws that relate the list primitives to one another. They speak of a
//! `HeapModel` that meets its invariant; for a `ConsHeap` that meets its own,
//! `ConsHeap::lemma_model_wf` gives that of its model.
use vstd::prelude::*;
use crate::object::{LispObject, nil, t};
use crate::lists::{
    HeapModel, LispCons, LispError, is_cons, is_list, cons_id, cons_object, consp_spec, atom_spec,
    listp_spec, nlistp_spec, CONS_BLOCK_SIZE, MAX_CONS_CELLS,
};

verus! {

/// The cons object of cell `id` is a cons that points back to cell `id`.
pub proof fn law_cons_object_points_to_its_cell(id: nat)
    requires
        id <= MAX_CONS_CELLS,
    ensures
        is_cons(cons_object(id)),
        cons_id(cons_object(id)) == id,
        (cons_object(id).0 - 3) % 16 == 0,
{
}

/// `(car (cons a b))` is `a` and `(cdr (cons a b))` is `b`.
pub proof fn law_car_cdr_of_cons(m: HeapModel, a: LispObject, b: LispObject)
    requires
        m.wf(),
    ensures
        ({
            let (m2, id) = m.cons_spec(a, b);
            &&& m2.car_result(cons_object(id)) == Ok::<LispObject, LispError>(a)
            &&& m2.cdr_result(cons_object(id)) == Ok::<LispObject, LispError>(b)
        }),
{
    crate::lists::lemma_cons_keeps_wf(m, a, b);
}

/// A new cons is a fresh object: it differs from every object that was
/// valid before it was made.
pub proof fn law_cons_is_fresh(m: HeapModel, a: LispObject, b: LispObject, o: LispObject)
    requires
        m.wf(),
        m.valid(o),
    ensures
        o != cons_object(m.cons_spec(a, b).1),
{
    crate::lists::lemma_cons_keeps_wf(m, a, b);
}

/// Making a cons changes no existing list: every object valid before stays
/// valid, with the same car and the same cdr.
pub proof fn law_cons_keeps_other_cells(m: HeapModel, a: LispObject, b: LispObject, o: LispObject)
    requires
        m.wf(),
        m.valid(o),
    ensures
        ({
            let m2 = m.cons_spec(a, b).0;
            &&& m.can_cons() ==> m2.wf()
            &&& m2.valid(o)
            &&& m2.car_result(o) == m.car_result(o)
            &&& m2.cdr_result(o) == m.cdr_result(o)
        }),
{
    crate::lists::lemma_cons_keeps_wf(m, a, b);
}

/// A cons takes the head of the free list when there is one; cells of the
/// current block are used only when the free list is empty.
pub proof fn law_free_cells_reused_first(m: HeapModel, a: LispObject, b: LispObject)
    requires
        m.wf(),
    ensures
        m.free_list.len() > 0 ==> m.cons_spec(a, b).1 == m.free_list[0],
        m.free_list.len() == 0 ==> m.cons_spec(a, b).1 == m.slots.len(),
{
}

/// Every cons counts one cell consed and `SIZEOF_LISP_CONS` bytes of
/// consing, keeps the index within the current block in bounds, and keeps
/// the count of free cells equal to the cells left in the current block plus
/// the cells on the free list.
pub proof fn law_cons_counters(m: HeapModel, a: LispObject, b: LispObject)
    requires
        m.wf(),
    ensures
        ({
            let m2 = m.cons_spec(a, b).0;
            &&& m2.cons_cells_consed == m.cons_cells_consed + 1
            &&& m2.consing_since_gc == m.consing_since_gc + 16
            &&& m2.cons_block_index <= CONS_BLOCK_SIZE
            &&& m2.cons_blocks >= m.cons_blocks
            &&& m2.total_free_conses == (CONS_BLOCK_SIZE - m2.cons_block_index)
                + m2.free_list.len()
        }),
{
}

/// A freed cell is the next one a cons takes, and the cons after that
/// takes what was the head of the free list before the cell was freed.
pub proof fn law_freed_cell_reused_next(m: HeapModel, c: LispObject, a: LispObject, b: LispObject)
    requires
        m.wf(),
        m.is_cons_cell(c),
    ensures
        m.free_spec(cons_id(c) as int).cons_spec(a, b).1 == cons_id(c),
        m.free_spec(cons_id(c) as int).cons_spec(a, b).0.free_list == m.free_list,
{
    assert(m.free_spec(cons_id(c) as int).free_list.drop_first() =~= m.free_list);
}

/// Freeing a cell changes no other cell in use: every object that does
/// not point to the freed cell stays valid, with the same car and cdr.
pub proof fn law_free_keeps_other_cells(m: HeapModel, c: LispObject, o: LispObject)
    requires
        m.wf(),
        m.is_cons_cell(c),
        m.valid(o),
        !(is_cons(o) && cons_id(o) == cons_id(c)),
    ensures
        ({
            let m2 = m.free_spec(cons_id(c) as int);
            &&& m2.valid(o)
            &&& m2.car_result(o) == m.car_result(o)
            &&& m2.cdr_result(o) == m.cdr_result(o)
            &&& !m2.is_live(cons_id(c) as int)
        }),
{
}

/// After `(setcar c v)` on a cons `c`, `(car c)` is `v` and `(cdr c)` is
/// what it was.
pub proof fn law_car_after_setcar(m: HeapModel, c: LispObject, v: LispObject)
    requires
        m.wf(),
        m.valid(c),
        is_cons(c),
    ensures
        ({
            let (m2, r) = m.setcar_spec(c, v);
            &&& r == Ok::<LispObject, LispError>(v)
            &&& m2.car_result(c) == Ok::<LispObject, LispError>(v)
            &&& m2.cdr_result(c) == m.cdr_result(c)
        }),
{
}

/// After `(setcdr c v)` on a cons `c`, `(cdr c)` is `v` and `(car c)` is
/// what it was.
pub proof fn law_cdr_after_setcdr(m: HeapModel, c: LispObject, v: LispObject)
    requires
        m.wf(),
        m.valid(c),
        is_cons(c),
    ensures
        ({
            let (m2, r) = m.setcdr_spec(c, v);
            &&& r == Ok::<LispObject, LispError>(v)
            &&& m2.cdr_result(c) == Ok::<LispObject, LispError>(v)
            &&& m2.car_result(c) == m.car_result(c)
        }),
{
}

/// `setcar` and `setcdr` change only the cell they are given: any object
/// that does not point to that cell keeps its car and its cdr.
pub proof fn law_set_changes_one_cell(m: HeapModel, c: LispObject, v: LispObject, o: LispObject)
    requires
        m.wf(),
        m.valid(c),
        m.valid(o),
        !(is_cons(o) && is_cons(c) && cons_id(o) == cons_id(c)),
    ensures
        m.setcar_spec(c, v).0.car_result(o) == m.car_result(o),
        m.setcar_spec(c, v).0.cdr_result(o) == m.cdr_result(o),
        m.setcdr_spec(c, v).0.car_result(o) == m.car_result(o),
        m.setcdr_spec(c, v).0.cdr_result(o) == m.cdr_result(o),
{
}

/// Every operation keeps a closed heap closed when the objects it stores
/// are valid: a cons of valid objects, and a `setcar` or `setcdr` of a valid
/// object, leave every cell in use holding valid objects.
pub proof fn law_operations_keep_heap_closed(
    m: HeapModel,
    a: LispObject,
    b: LispObject,
    c: LispObject,
)
    requires
        m.wf(),
        m.closed(),
        m.valid(a),
        m.valid(b),
        m.valid(c),
    ensures
        m.cons_spec(a, b).0.closed(),
        m.setcar_spec(c, a).0.closed(),
        m.setcdr_spec(c, a).0.closed(),
{
    crate::lists::lemma_cons_keeps_wf(m, a, b);
    if is_cons(c) {
        crate::lists::lemma_set_keeps_wf(m, cons_id(c) as int, a);
    }
}

/// In a closed heap, the car and the cdr of a valid object are valid
/// objects, so they can be taken in turn.
pub proof fn law_car_cdr_of_closed_heap_are_valid(m: HeapModel, o: LispObject)
    requires
        m.wf(),
        m.closed(),
        m.valid(o),
    ensures
        m.car_result(o) matches Ok(x) ==> m.valid(x),
        m.cdr_result(o) matches Ok(x) ==> m.valid(x),
{
    if is_cons(o) {
        assert(m.is_live(cons_id(o) as int));
    }
    assert(!is_cons(nil()));
}

/// `setcar` and `setcdr` on something that is not a cons change nothing and
/// signal that it fails `consp`.
pub proof fn law_set_on_non_cons(m: HeapModel, c: LispObject, v: LispObject)
    requires
        !is_cons(c),
    ensures
        m.setcar_spec(c, v) == (
            m,
            Err::<LispObject, LispError>(LispError::WrongTypeArgument(
                crate::object::consp_symbol(),
                c,
            )),
        ),
        m.setcdr_spec(c, v) == (
            m,
            Err::<LispObject, LispError>(LispError::WrongTypeArgument(
                crate::object::consp_symbol(),
                c,
            )),
        ),
{
}

/// `car` and `cdr` succeed exactly on lists, and give `nil` for `nil`.
pub proof fn law_car_cdr_defined_on_lists(m: HeapModel, o: LispObject)
    ensures
        m.car_result(o) is Ok <==> is_list(o),
        m.cdr_result(o) is Ok <==> is_list(o),
        m.car_result(nil()) == Ok::<LispObject, LispError>(nil()),
        m.cdr_result(nil()) == Ok::<LispObject, LispError>(nil()),
{
    assert(!is_cons(nil()));
}

/// `listp` and `nlistp` are complements, and so are `consp` and `atom`;
/// every cons is a list, and `nil` is a list and an atom.
pub proof fn law_type_predicates(o: LispObject)
    ensures
        (listp_spec(o) == t()) <==> (nlistp_spec(o) == nil()),
        (consp_spec(o) == t()) <==> (atom_spec(o) == nil()),
        consp_spec(o) == t() ==> listp_spec(o) == t(),
        listp_spec(nil()) == t(),
        atom_spec(nil()) == t(),
        listp_spec(o) == t() || listp_spec(o) == nil(),
{
    assert(t() != nil());
    assert(!is_cons(nil()));
}

/// `consp` answers `t` exactly on words whose tag bits are the cons tag 3,
/// and `nil` on all others; `atom` answers the opposite. So every object
/// that `cons` returns is `consp`, whatever its address.
pub proof fn law_consp_atom_read_tag_bits(o: LispObject, id: nat)
    requires
        id <= MAX_CONS_CELLS,
    ensures
        consp_spec(o).0 == 8 || consp_spec(o).0 == 0,
        (consp_spec(o).0 == 8) == (o.0 % 8 == 3),
        atom_spec(o).0 == 8 || atom_spec(o).0 == 0,
        (atom_spec(o).0 == 8) == (o.0 % 8 != 3),
        consp_spec(cons_object(id)).0 == 8,
        atom_spec(cons_object(id)).0 == 0,
{
}

/// `listp` answers `t` exactly on conses (tag bits 3) and on `nil` (the
/// word 0), and `nil` on everything else, every fixnum included; `nlistp`
/// answers the opposite.
pub proof fn law_listp_nlistp_read_cons_or_nil(o: LispObject)
    ensures
        listp_spec(o).0 == 8 || listp_spec(o).0 == 0,
        (listp_spec(o).0 == 8) == (o.0 % 8 == 3 || o.0 == 0),
        nlistp_spec(o).0 == 8 || nlistp_spec(o).0 == 0,
        (nlistp_spec(o).0 == 8) == !(o.0 % 8 == 3 || o.0 == 0),
        o.0 % 4 == 2 ==> listp_spec(o).0 == 0 && nlistp_spec(o).0 == 8,
{
}

/// `car` and `cdr` succeed exactly on conses (tag bits 3) and on `nil`
/// (the word 0), which gives `nil`; on anything else they signal that the
/// argument fails `listp` (the symbol word 24).
pub proof fn law_car_cdr_read_cons_or_nil(m: HeapModel, o: LispObject)
    ensures
        m.car_result(o) is Ok == (o.0 % 8 == 3 || o.0 == 0),
        m.cdr_result(o) is Ok == (o.0 % 8 == 3 || o.0 == 0),
        o.0 == 0 ==> m.car_result(o) == Ok::<LispObject, LispError>(LispObject(0)),
        o.0 == 0 ==> m.cdr_result(o) == Ok::<LispObject, LispError>(LispObject(0)),
        !(o.0 % 8 == 3 || o.0 == 0) ==> m.car_result(o) == Err::<LispObject, LispError>(
            LispError::WrongTypeArgument(LispObject(24), o),
        ),
        !(o.0 % 8 == 3 || o.0 == 0) ==> m.cdr_result(o) == Err::<LispObject, LispError>(
            LispError::WrongTypeArgument(LispObject(24), o),
        ),
{
}

/// `setcar` and `setcdr` on a cons write that one cell and nothing else:
/// every cell in use stays in use, every other cell keeps its slot, the free
/// list, the blocks and the counters are unchanged; and a cons made after
/// them is a fresh object, different from every object valid before.
pub proof fn law_set_writes_only_its_cell(
    m: HeapModel,
    c: LispObject,
    v: LispObject,
    a: LispObject,
    b: LispObject,
    o: LispObject,
)
    requires
        m.wf(),
        m.is_cons_cell(c),
        m.valid(o),
    ensures
        ({
            let id = cons_id(c) as int;
            let m1 = m.setcar_spec(c, v).0;
            let m2 = m.setcdr_spec(c, v).0;
            &&& m1.slots.len() == m.slots.len() && m2.slots.len() == m.slots.len()
            &&& m1.free_list == m.free_list && m2.free_list == m.free_list
            &&& m1.cons_blocks == m.cons_blocks && m2.cons_blocks == m.cons_blocks
            &&& m1.cons_block_index == m.cons_block_index
            &&& m2.cons_block_index == m.cons_block_index
            &&& m1.gcmarkbits == m.gcmarkbits && m2.gcmarkbits == m.gcmarkbits
            &&& m1.total_free_conses == m.total_free_conses
            &&& m2.total_free_conses == m.total_free_conses
            &&& m1.consing_since_gc == m.consing_since_gc
            &&& m2.consing_since_gc == m.consing_since_gc
            &&& m1.cons_cells_consed == m.cons_cells_consed
            &&& m2.cons_cells_consed == m.cons_cells_consed
            &&& forall|j: int| m.is_live(j) ==> #[trigger] m1.is_live(j) && m2.is_live(j)
            &&& forall|j: int|
                0 <= j < m.slots.len() && j != id ==> #[trigger] m1.slots[j] == m.slots[j]
                    && m2.slots[j] == m.slots[j]
            &&& m1.cell(id) == LispCons { car: v, cdr: m.cell(id).cdr }
            &&& m2.cell(id) == LispCons { car: m.cell(id).car, cdr: v }
            &&& o != cons_object(m1.cons_spec(a, b).1)
            &&& o != cons_object(m2.cons_spec(a, b).1)
        }),
{
    let id = cons_id(c) as int;
    crate::lists::lemma_set_keeps_wf(m, id, v);
    let m1 = m.setcar_spec(c, v).0;
    let m2 = m.setcdr_spec(c, v).0;
    assert(m1.valid(o) && m2.valid(o));
    crate::lists::lemma_cons_keeps_wf(m1, a, b);
    crate::lists::lemma_cons_keeps_wf(m2, a, b);
}

} // verus!
