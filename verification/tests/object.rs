use remacs::object::{
    make_lisp_ptr, LispObject, LispType, Qconsp, Qfloatp, Qlistp, Qnil, Qnumberp, Qt, XTYPE, XUNTAG,
};

#[test]
fn tags_of_each_type() {
    assert_eq!(XTYPE(LispObject(0)), LispType::Lisp_Symbol);
    assert_eq!(XTYPE(LispObject(9)), LispType::Lisp_Misc);
    assert_eq!(XTYPE(LispObject(10)), LispType::Lisp_Int0);
    assert_eq!(XTYPE(LispObject(19)), LispType::Lisp_Cons);
    assert_eq!(XTYPE(LispObject(20)), LispType::Lisp_String);
    assert_eq!(XTYPE(LispObject(21)), LispType::Lisp_Vectorlike);
    assert_eq!(XTYPE(LispObject(14)), LispType::Lisp_Int1);
    assert_eq!(XTYPE(LispObject(u64::MAX)), LispType::Lisp_Float);
}

#[test]
fn make_lisp_ptr_then_untag() {
    let o = make_lisp_ptr(4096, LispType::Lisp_Cons);
    assert_eq!(o, LispObject(4099));
    assert_eq!(XTYPE(o), LispType::Lisp_Cons);
    assert_eq!(XUNTAG(o, LispType::Lisp_Cons), 4096);
    let s = make_lisp_ptr(64, LispType::Lisp_String);
    assert_eq!(s, LispObject(68));
    assert_eq!(XUNTAG(s, LispType::Lisp_String), 64);
}

#[test]
fn builtin_symbols() {
    assert_eq!(Qnil(), LispObject(0));
    assert_eq!(LispObject::constant_nil(), Qnil());
    assert_eq!(LispObject::constant_t(), Qt());
    assert_eq!(XTYPE(Qt()), LispType::Lisp_Symbol);
    assert_ne!(Qt(), Qnil());
    assert_ne!(Qconsp(), Qlistp());
}

#[test]
fn fixnums_decode_with_their_sign() {
    assert_eq!(LispObject(2).to_fixnum(), Some(0));
    assert_eq!(LispObject(6).to_fixnum(), Some(1));
    assert_eq!(LispObject(42).to_fixnum(), Some(10));
    assert_eq!(LispObject(u64::MAX - 1).to_fixnum(), Some(-1));
    assert_eq!(LispObject(u64::MAX - 5).to_fixnum(), Some(-2));
    assert_eq!(LispObject(0x8000_0000_0000_0002).to_fixnum(), Some(-0x2000_0000_0000_0000));
    assert_eq!(LispObject(0x7fff_ffff_ffff_fffe).to_fixnum(), Some(0x1fff_ffff_ffff_ffff));
    assert_eq!(LispObject(3).to_fixnum(), None);
    assert_eq!(Qnil().to_fixnum(), None);
}

#[test]
fn number_predicates() {
    assert!(LispObject(2).is_fixnum());
    assert!(LispObject(6).is_fixnum());
    assert!(LispObject(2).is_number());
    assert!(!LispObject(2).is_float());
    assert!(LispObject(7).is_float());
    assert!(LispObject(7).is_number());
    assert!(!LispObject(3).is_number());
    assert!(!Qt().is_number());
    assert_ne!(Qnumberp(), Qfloatp());
}
