use remacs::lists::{
    car, cdr, free_cons, ConsHeap, Fatom, Fcar, Fcdr, Fcons, Fconsp, Flistp, Fnlistp, Fsetcar, Fsetcdr,
    LispError, CONSP, NILP,
};
use remacs::object::{LispObject, Qconsp, Qlistp, Qnil, Qt};

fn fixnum(n: u64) -> LispObject {
    LispObject(n << 2 | 2)
}

#[test]
fn car_and_cdr_of_cons() {
    let mut h = ConsHeap::new();
    let a = fixnum(1);
    let b = fixnum(2);
    let c = Fcons(&mut h, a, b);
    assert_eq!(Fcar(&h, c), Ok(a));
    assert_eq!(Fcdr(&h, c), Ok(b));
    assert_eq!(car(&h, c), Ok(a));
    assert_eq!(cdr(&h, c), Ok(b));
}

#[test]
fn first_cons_starts_a_block() {
    let mut h = ConsHeap::new();
    assert_eq!(h.cons_blocks(), 0);
    assert_eq!(h.cons_block_index(), 100);
    assert_eq!(h.total_free_conses(), 0);
    let c = Fcons(&mut h, Qnil(), Qnil());
    assert_eq!(c, LispObject(3));
    assert_eq!(h.cons_blocks(), 1);
    assert_eq!(h.cons_block_index(), 1);
    assert_eq!(h.cell_count(), 1);
    assert_eq!(h.total_free_conses(), 99);
    assert_eq!(h.consing_since_gc(), 16);
    assert_eq!(h.cons_cells_consed(), 1);
    assert_eq!(h.gcmarkbits(), &vec![0u64, 0u64]);
}

#[test]
fn cons_cells_are_handed_out_in_order_and_blocks_refill() {
    let mut h = ConsHeap::new();
    let mut last = Qnil();
    for i in 0..100u64 {
        let c = Fcons(&mut h, fixnum(i), last);
        assert_eq!(c, LispObject(16 * i + 3));
        last = c;
    }
    assert_eq!(h.cons_blocks(), 1);
    assert_eq!(h.cons_block_index(), 100);
    assert_eq!(h.total_free_conses(), 0);
    let c = Fcons(&mut h, Qnil(), last);
    assert_eq!(c, LispObject(16 * 100 + 3));
    assert_eq!(h.cons_blocks(), 2);
    assert_eq!(h.cons_block_index(), 1);
    assert_eq!(h.total_free_conses(), 99);
    assert_eq!(h.cons_cells_consed(), 101);
    assert_eq!(h.consing_since_gc(), 16 * 101);
    assert_eq!(h.gcmarkbits().len(), 4);
    // The list built above reads back in reverse order of construction.
    let mut cur = last;
    let mut expected = 99u64;
    while cur != Qnil() {
        assert_eq!(Fcar(&h, cur), Ok(fixnum(expected)));
        cur = Fcdr(&h, cur).unwrap();
        if expected > 0 {
            expected -= 1;
        }
    }
}

#[test]
fn car_and_cdr_of_nil_are_nil() {
    let h = ConsHeap::new();
    assert_eq!(Fcar(&h, Qnil()), Ok(Qnil()));
    assert_eq!(Fcdr(&h, Qnil()), Ok(Qnil()));
}

#[test]
fn car_of_non_list_signals_listp() {
    let h = ConsHeap::new();
    let x = fixnum(7);
    assert_eq!(
        Fcar(&h, x),
        Err(LispError::WrongTypeArgument(Qlistp(), x))
    );
    assert_eq!(
        Fcdr(&h, Qt()),
        Err(LispError::WrongTypeArgument(Qlistp(), Qt()))
    );
}

#[test]
fn setcar_returns_newcar_and_changes_only_its_cell() {
    let mut h = ConsHeap::new();
    let c1 = Fcons(&mut h, fixnum(1), fixnum(2));
    let c2 = Fcons(&mut h, fixnum(3), fixnum(4));
    assert_eq!(Fsetcar(&mut h, c1, fixnum(9)), Ok(fixnum(9)));
    assert_eq!(Fcar(&h, c1), Ok(fixnum(9)));
    assert_eq!(Fcdr(&h, c1), Ok(fixnum(2)));
    assert_eq!(Fcar(&h, c2), Ok(fixnum(3)));
    assert_eq!(Fcdr(&h, c2), Ok(fixnum(4)));
}

#[test]
fn setcdr_returns_newcdr_and_changes_only_its_cell() {
    let mut h = ConsHeap::new();
    let c1 = Fcons(&mut h, fixnum(1), fixnum(2));
    let c2 = Fcons(&mut h, fixnum(3), fixnum(4));
    assert_eq!(Fsetcdr(&mut h, c1, c2), Ok(c2));
    assert_eq!(Fcdr(&h, c1), Ok(c2));
    assert_eq!(Fcar(&h, c1), Ok(fixnum(1)));
    assert_eq!(Fcar(&h, c2), Ok(fixnum(3)));
    assert_eq!(Fcdr(&h, c2), Ok(fixnum(4)));
}

#[test]
fn setcar_and_setcdr_on_non_cons_signal_consp() {
    let mut h = ConsHeap::new();
    let c = Fcons(&mut h, fixnum(1), fixnum(2));
    assert_eq!(
        Fsetcar(&mut h, Qnil(), fixnum(5)),
        Err(LispError::WrongTypeArgument(Qconsp(), Qnil()))
    );
    assert_eq!(
        Fsetcdr(&mut h, fixnum(8), fixnum(5)),
        Err(LispError::WrongTypeArgument(Qconsp(), fixnum(8)))
    );
    assert_eq!(Fcar(&h, c), Ok(fixnum(1)));
    assert_eq!(Fcdr(&h, c), Ok(fixnum(2)));
    assert_eq!(h.cell_count(), 1);
}

#[test]
fn new_cons_is_fresh() {
    let mut h = ConsHeap::new();
    let c1 = Fcons(&mut h, Qnil(), Qnil());
    let c2 = Fcons(&mut h, Qnil(), Qnil());
    assert_ne!(c1, c2);
    assert_eq!(Fcar(&h, c1), Fcar(&h, c2));
}

#[test]
fn type_predicates() {
    let mut h = ConsHeap::new();
    let c = Fcons(&mut h, Qnil(), Qnil());
    let n = fixnum(3);
    assert!(CONSP(c));
    assert!(!CONSP(Qnil()));
    assert!(NILP(Qnil()));
    assert!(!NILP(Qt()));
    assert_eq!(Fconsp(c), Qt());
    assert_eq!(Fconsp(Qnil()), Qnil());
    assert_eq!(Fatom(c), Qnil());
    assert_eq!(Fatom(Qnil()), Qt());
    assert_eq!(Fatom(n), Qt());
    assert_eq!(Flistp(c), Qt());
    assert_eq!(Flistp(Qnil()), Qt());
    assert_eq!(Flistp(n), Qnil());
    assert_eq!(Flistp(Qt()), Qnil());
    assert_eq!(Fnlistp(c), Qnil());
    assert_eq!(Fnlistp(Qnil()), Qnil());
    assert_eq!(Fnlistp(n), Qt());
}

#[test]
fn freed_cells_are_reused_before_block_cells() {
    let mut h = ConsHeap::new();
    let a = Fcons(&mut h, fixnum(1), Qnil());
    let b = Fcons(&mut h, fixnum(2), a);
    let c = Fcons(&mut h, fixnum(3), Qnil());
    assert_eq!(h.total_free_conses(), 97);
    free_cons(&mut h, a);
    free_cons(&mut h, c);
    assert_eq!(h.total_free_conses(), 99);
    assert_eq!(h.consing_since_gc(), 16);
    assert_eq!(h.cons_cells_consed(), 3);
    // The last cell freed is reused first, then the one freed before it.
    let d = Fcons(&mut h, fixnum(4), Qnil());
    assert_eq!(d, c);
    let e = Fcons(&mut h, fixnum(5), Qnil());
    assert_eq!(e, a);
    assert_eq!(h.total_free_conses(), 97);
    assert_eq!(h.cell_count(), 3);
    assert_eq!(h.cons_block_index(), 3);
    // With the free list empty again, the next cell of the block is used.
    let f = Fcons(&mut h, fixnum(6), Qnil());
    assert_eq!(f, LispObject(16 * 3 + 3));
    assert_eq!(Fcar(&h, d), Ok(fixnum(4)));
    assert_eq!(Fcar(&h, e), Ok(fixnum(5)));
    assert_eq!(Fcar(&h, b), Ok(fixnum(2)));
    assert!(h.gcmarkbits().iter().all(|w| *w == 0));
}
