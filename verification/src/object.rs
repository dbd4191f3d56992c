//! Lisp object words.
//!
//! A Lisp object is one machine word. Its three low bits are the type tag;
//! for heap objects the remaining bits are the address of the object, which
//! is always a multiple of 8, so that the tag fits below it.
use vstd::prelude::*;

verus! {

/// Number of low bits of an object word that hold its type tag.
pub const GCTYPEBITS: u64 = 3;

/// One more than the largest tag value.
pub const TAG_MODULUS: u64 = 8;

/// Mask of the tag bits of an object word.
pub const TAG_MASK: u64 = 7;

/// Distance, in bytes, between two entries of the builtin symbol table.
pub const SYMBOL_STRIDE: u64 = 8;

/// The type of a Lisp object, as stored in the low bits of its word.
#[allow(non_camel_case_types)]
#[derive(Clone, Copy, PartialEq, Eq, Structural, Debug)]
pub enum LispType {
    Lisp_Symbol,
    Lisp_Misc,
    Lisp_Int0,
    Lisp_Int1,
    Lisp_String,
    Lisp_Vectorlike,
    Lisp_Cons,
    Lisp_Float,
}

impl LispType {
    /// The tag value that marks an object of this type.
    pub open spec fn tag_spec(self) -> u64 {
        match self {
            LispType::Lisp_Symbol => 0,
            LispType::Lisp_Misc => 1,
            LispType::Lisp_Int0 => 2,
            LispType::Lisp_Cons => 3,
            LispType::Lisp_String => 4,
            LispType::Lisp_Vectorlike => 5,
            LispType::Lisp_Int1 => 6,
            LispType::Lisp_Float => 7,
        }
    }

    /// The tag value that marks an object of this type.
    pub fn tag(self) -> (t: u64)
        ensures
            t == self.tag_spec(),
            t < TAG_MODULUS,
    {
        match self {
            LispType::Lisp_Symbol => 0,
            LispType::Lisp_Misc => 1,
            LispType::Lisp_Int0 => 2,
            LispType::Lisp_Cons => 3,
            LispType::Lisp_String => 4,
            LispType::Lisp_Vectorlike => 5,
            LispType::Lisp_Int1 => 6,
            LispType::Lisp_Float => 7,
        }
    }
}

/// The type whose tag is `t` (`t` is taken modulo 8).
pub open spec fn type_of_tag(t: u64) -> LispType {
    let r = t % 8;
    if r == 0 {
        LispType::Lisp_Symbol
    } else if r == 1 {
        LispType::Lisp_Misc
    } else if r == 2 {
        LispType::Lisp_Int0
    } else if r == 3 {
        LispType::Lisp_Cons
    } else if r == 4 {
        LispType::Lisp_String
    } else if r == 5 {
        LispType::Lisp_Vectorlike
    } else if r == 6 {
        LispType::Lisp_Int1
    } else {
        LispType::Lisp_Float
    }
}

/// A Lisp object: one tagged machine word.
#[derive(Clone, Copy, PartialEq, Eq, Structural, Debug)]
pub struct LispObject(pub u64);

impl LispObject {
    /// The type of this object, read from its tag bits.
    pub open spec fn lisp_type(self) -> LispType {
        type_of_tag(self.0)
    }

    /// The object `nil`.
    pub fn constant_nil() -> (o: LispObject)
        ensures
            o == nil(),
            o.0 == 0,
    {
        LispObject(0)
    }

    /// The object `t`.
    pub fn constant_t() -> (o: LispObject)
        ensures
            o == t(),
            o.0 == 8,
    {
        LispObject(SYMBOL_STRIDE)
    }
}

/// The word read as a two's-complement signed integer.
pub open spec fn signed_word(w: u64) -> int {
    if w < 0x8000_0000_0000_0000 {
        w as int
    } else {
        w as int - 0x1_0000_0000_0000_0000
    }
}



impl LispObject {
    /// Whether this object is a fixnum: its two low bits are `10`, so that
    /// both `Lisp_Int0` and `Lisp_Int1` are fixnum tags.
    pub open spec fn is_fixnum_spec(self) -> bool {
        self.0 % 4 == 2
    }

    /// The value of a fixnum: the signed word less its tag, divided by 4.
    pub open spec fn fixnum_value(self) -> int {
        (signed_word(self.0) - 2) / 4
    }

    /// Whether this object is a float.
    pub open spec fn is_float_spec(self) -> bool {
        self.lisp_type() == LispType::Lisp_Float
    }

    /// Whether this object is a number: a fixnum or a float.
    pub open spec fn is_number_spec(self) -> bool {
        self.is_fixnum_spec() || self.is_float_spec()
    }

    /// Whether this object is a fixnum.
    pub fn is_fixnum(self) -> (r: bool)
        ensures
            r == self.is_fixnum_spec(),
            r == (self.0 % 8 == 2 || self.0 % 8 == 6),
    {
        let ty = XTYPE(self);
        ty == LispType::Lisp_Int0 || ty == LispType::Lisp_Int1
    }

    /// Whether this object is a float.
    pub fn is_float(self) -> (r: bool)
        ensures
            r == self.is_float_spec(),
            r == (self.0 % 8 == 7),
    {
        XTYPE(self) == LispType::Lisp_Float
    }

    /// Whether this object is a number.
    pub fn is_number(self) -> (r: bool)
        ensures
            r == self.is_number_spec(),
            r == (self.0 % 8 == 2 || self.0 % 8 == 6 || self.0 % 8 == 7),
    {
        self.is_fixnum() || self.is_float()
    }

    /// The value of this object if it is a fixnum.
    pub fn to_fixnum(self) -> (r: Option<i64>)
        ensures
            r == (if self.is_fixnum_spec() {
                Some(self.fixnum_value() as i64)
            } else {
                None
            }),
            r matches Some(v) ==> v == self.fixnum_value(),
            r is Some == (self.0 % 4 == 2),
            r matches Some(v) ==> (self.0 < 0x8000_0000_0000_0000 ==> 4 * v + 2 == self.0),
            r matches Some(v) ==> (self.0 >= 0x8000_0000_0000_0000 ==> 4 * v + 2 == self.0
                - 0x1_0000_0000_0000_0000),
    {
        if !self.is_fixnum() {
            None
        } else if self.0 < 0x8000_0000_0000_0000 {
            Some((self.0 / 4) as i64)
        } else {
            let v = ((u64::MAX - self.0) + 3) / 4;
            Some(-(v as i64))
        }
    }
}

/// The builtin symbol with the given index in the symbol table.
pub open spec fn builtin_symbol(index: nat) -> LispObject {
    LispObject((index * SYMBOL_STRIDE) as u64)
}

/// The symbol `nil`: the first builtin symbol, whose word is 0.
pub open spec fn nil() -> LispObject {
    builtin_symbol(0)
}

/// The symbol `t`.
pub open spec fn t() -> LispObject {
    builtin_symbol(1)
}

/// The symbol `consp`, the predicate named by errors on non-conses.
pub open spec fn consp_symbol() -> LispObject {
    builtin_symbol(2)
}

/// The symbol `listp`, the predicate named by errors on non-lists.
pub open spec fn listp_symbol() -> LispObject {
    builtin_symbol(3)
}

/// The symbol `nil`.
pub fn Qnil() -> (o: LispObject)
    ensures
        o == nil(),
        o.0 == 0,
{
    LispObject(0)
}

/// The symbol `t`.
pub fn Qt() -> (o: LispObject)
    ensures
        o == t(),
        o.0 == 8,
{
    LispObject(SYMBOL_STRIDE)
}

/// The symbol `consp`.
pub fn Qconsp() -> (o: LispObject)
    ensures
        o == consp_symbol(),
        o.0 == 16,
{
    LispObject(2 * SYMBOL_STRIDE)
}

/// The symbol `listp`.
pub fn Qlistp() -> (o: LispObject)
    ensures
        o == listp_symbol(),
        o.0 == 24,
{
    LispObject(3 * SYMBOL_STRIDE)
}

/// The symbol `numberp`, the predicate named by errors on non-numbers.
pub open spec fn numberp_symbol() -> LispObject {
    builtin_symbol(4)
}

/// The symbol `floatp`, the predicate named by errors on non-floats.
pub open spec fn floatp_symbol() -> LispObject {
    builtin_symbol(5)
}

/// The symbol `numberp`.
pub fn Qnumberp() -> (o: LispObject)
    ensures
        o == numberp_symbol(),
        o.0 == 32,
{
    LispObject(4 * SYMBOL_STRIDE)
}

/// The symbol `floatp`.
pub fn Qfloatp() -> (o: LispObject)
    ensures
        o == floatp_symbol(),
        o.0 == 40,
{
    LispObject(5 * SYMBOL_STRIDE)
}

/// The Lisp boolean for `b`: `t` when it holds, `nil` when it does not.
pub open spec fn lisp_bool(b: bool) -> LispObject {
    if b {
        t()
    } else {
        nil()
    }
}

proof fn lemma_tag_mask(w: u64)
    ensures
        w & 7 == w % 8,
{
    assert(w & 7 == w % 8) by (bit_vector);
}

/// The type of an object, read from its tag bits.
pub fn XTYPE(a: LispObject) -> (ty: LispType)
    ensures
        ty == a.lisp_type(),
        ty.tag_spec() == a.0 % 8,
        (ty == LispType::Lisp_Symbol) == (a.0 % 8 == 0),
        (ty == LispType::Lisp_Misc) == (a.0 % 8 == 1),
        (ty == LispType::Lisp_Int0) == (a.0 % 8 == 2),
        (ty == LispType::Lisp_Cons) == (a.0 % 8 == 3),
        (ty == LispType::Lisp_String) == (a.0 % 8 == 4),
        (ty == LispType::Lisp_Vectorlike) == (a.0 % 8 == 5),
        (ty == LispType::Lisp_Int1) == (a.0 % 8 == 6),
        (ty == LispType::Lisp_Float) == (a.0 % 8 == 7),
{
    let tag = a.0 & TAG_MASK;
    proof {
        lemma_tag_mask(a.0);
    }
    if tag == 0 {
        LispType::Lisp_Symbol
    } else if tag == 1 {
        LispType::Lisp_Misc
    } else if tag == 2 {
        LispType::Lisp_Int0
    } else if tag == 3 {
        LispType::Lisp_Cons
    } else if tag == 4 {
        LispType::Lisp_String
    } else if tag == 5 {
        LispType::Lisp_Vectorlike
    } else if tag == 6 {
        LispType::Lisp_Int1
    } else {
        LispType::Lisp_Float
    }
}

/// The object word for the address `ptr` tagged with type `ty`.
pub open spec fn tagged(ptr: u64, ty: LispType) -> LispObject {
    LispObject((ptr + ty.tag_spec()) as u64)
}

/// Build an object from an address and a type: the address plus the tag.
/// The address must be 8-aligned, so that the tag bits are free.
pub fn make_lisp_ptr(ptr: u64, ty: LispType) -> (o: LispObject)
    requires
        ptr % 8 == 0,
        ptr + 7 <= u64::MAX,
    ensures
        o == tagged(ptr, ty),
        o.0 == ptr + ty.tag_spec(),
        o.lisp_type() == ty,
{
    LispObject(ptr + ty.tag())
}

/// The address held by `a`, whose type is `ty`: the word less the tag.
pub fn XUNTAG(a: LispObject, ty: LispType) -> (ptr: u64)
    requires
        a.lisp_type() == ty,
    ensures
        ptr == a.0 - ty.tag_spec(),
        ptr % 8 == 0,
{
    let tag = ty.tag();
    assert(ty.tag_spec() == a.0 % 8);
    a.0 - tag
}

/// Tagging an aligned address and reading the tag and the address back
/// gives the type and the address that went in.
pub proof fn law_tag_roundtrip(ptr: u64, ty: LispType)
    requires
        ptr % 8 == 0,
        ptr + 7 <= u64::MAX,
    ensures
        tagged(ptr, ty).lisp_type() == ty,
        tagged(ptr, ty).0 - ty.tag_spec() == ptr,
{
}

/// Two objects of one type are the same object exactly when they hold the
/// same address.
pub proof fn law_tagged_injective(p: u64, q: u64, ty: LispType)
    requires
        p % 8 == 0,
        q % 8 == 0,
        p + 7 <= u64::MAX,
        q + 7 <= u64::MAX,
    ensures
        (tagged(p, ty) == tagged(q, ty)) == (p == q),
{
}

/// The type read from a word is fixed by its three low bits alone, and
/// each of the eight tag values names a different type.
pub proof fn law_type_is_read_from_tag_bits(o: LispObject)
    ensures
        (o.lisp_type() == LispType::Lisp_Symbol) == (o.0 % 8 == 0),
        (o.lisp_type() == LispType::Lisp_Misc) == (o.0 % 8 == 1),
        (o.lisp_type() == LispType::Lisp_Int0) == (o.0 % 8 == 2),
        (o.lisp_type() == LispType::Lisp_Cons) == (o.0 % 8 == 3),
        (o.lisp_type() == LispType::Lisp_String) == (o.0 % 8 == 4),
        (o.lisp_type() == LispType::Lisp_Vectorlike) == (o.0 % 8 == 5),
        (o.lisp_type() == LispType::Lisp_Int1) == (o.0 % 8 == 6),
        (o.lisp_type() == LispType::Lisp_Float) == (o.0 % 8 == 7),
        o.lisp_type().tag_spec() == o.0 % 8,
{
}

/// A word is a fixnum exactly when its tag is one of the two fixnum tags,
/// and a float exactly when its tag is the float tag; so no fixnum is a
/// float, and the numbers are the fixnums and the floats.
pub proof fn law_number_tags(o: LispObject)
    ensures
        o.is_fixnum_spec() == (o.0 % 8 == 2 || o.0 % 8 == 6),
        o.is_float_spec() == (o.0 % 8 == 7),
        o.is_fixnum_spec() ==> !o.is_float_spec(),
        o.is_number_spec() == (o.0 % 8 == 2 || o.0 % 8 == 6 || o.0 % 8 == 7),
        o.is_float_spec() ==> !o.is_fixnum_spec(),
{
}

/// The value of a fixnum, times 4 and plus its tag 2, is its word read as a
/// signed integer; so distinct fixnum words have distinct values.
pub proof fn law_fixnum_value(o: LispObject, p: LispObject)
    requires
        o.0 % 4 == 2,
        p.0 % 4 == 2,
    ensures
        o.0 < 0x8000_0000_0000_0000 ==> 4 * o.fixnum_value() + 2 == o.0,
        o.0 >= 0x8000_0000_0000_0000 ==> 4 * o.fixnum_value() + 2 == o.0
            - 0x1_0000_0000_0000_0000,
        -0x2000_0000_0000_0000 <= o.fixnum_value() < 0x2000_0000_0000_0000,
        (o.fixnum_value() == p.fixnum_value()) == (o.0 == p.0),
{
}

/// The builtin symbols are distinct symbol words, `nil` being the word 0.
pub proof fn law_builtin_symbols()
    ensures
        nil().0 == 0,
        t().0 == 8,
        consp_symbol().0 == 16,
        listp_symbol().0 == 24,
        numberp_symbol().0 == 32,
        floatp_symbol().0 == 40,
        t().0 % 8 == 0 && consp_symbol().0 % 8 == 0 && listp_symbol().0 % 8 == 0,
{
}

} // verus!
