//! Implementations of [`RedefinedConvert`] for the self-converting base types
//! and for the containers that mirrored fields may use.
//!
//! Base types convert to themselves; containers convert componentwise,
//! delegating to the implementation of their element types.

use vstd::prelude::*;

use crate::RedefinedConvert;

verus! {

impl<T: DeepView, F: RedefinedConvert<T>> RedefinedConvert<Vec<T>> for Vec<F> {
    open spec fn converts(&self, src: &Vec<T>) -> bool {
        &&& self@.len() == src@.len()
        &&& forall|i: int|
            0 <= i < self@.len() ==> #[trigger] self@[i].converts(&src@[i])
    }

    proof fn lemma_converts_determines_source(&self, x: &Vec<T>, y: &Vec<T>) {
        assert forall|i: int|
            0 <= i < x.deep_view().len() implies x.deep_view()[i] == y.deep_view()[i] by {
            self@[i].lemma_converts_determines_source(&x@[i], &y@[i]);
        }
        assert(x.deep_view() =~= y.deep_view());
    }

    fn from_source(src: Vec<T>) -> (r: Vec<F>) {
        let ghost orig = src;
        let mut rest = src;
        let mut r: Vec<F> = Vec::new();
        while rest.len() > 0
            invariant
                r@.len() + rest@.len() == orig@.len(),
                rest@ == orig@.subrange(r@.len() as int, orig@.len() as int),
                forall|i: int| 0 <= i < r@.len() ==> #[trigger] r@[i].converts(&orig@[i]),
            decreases rest@.len(),
        {
            let item = rest.remove(0);
            r.push(F::from_source(item));
        }
        r
    }

    fn to_source(self) -> (r: Vec<T>) {
        let ghost orig = self;
        let mut rest = self;
        let mut r: Vec<T> = Vec::new();
        while rest.len() > 0
            invariant
                r@.len() + rest@.len() == orig@.len(),
                rest@ == orig@.subrange(r@.len() as int, orig@.len() as int),
                forall|i: int| 0 <= i < r@.len() ==> #[trigger] orig@[i].converts(&r@[i]),
            decreases rest@.len(),
        {
            let item = rest.remove(0);
            r.push(item.to_source());
        }
        r
    }
}

impl<T: DeepView, F: RedefinedConvert<T>> RedefinedConvert<Option<T>> for Option<F> {
    open spec fn converts(&self, src: &Option<T>) -> bool {
        match (self, src) {
            (Option::None, Option::None) => true,
            (Option::Some(v), Option::Some(s)) => v.converts(s),
            _ => false,
        }
    }

    proof fn lemma_converts_determines_source(&self, x: &Option<T>, y: &Option<T>) {
        match (self, x, y) {
            (Option::Some(v), Option::Some(a), Option::Some(b)) => {
                v.lemma_converts_determines_source(a, b);
            }
            _ => {}
        }
    }

    fn from_source(src: Option<T>) -> (r: Option<F>) {
        match src {
            Option::None => Option::None,
            Option::Some(v) => Option::Some(F::from_source(v)),
        }
    }

    fn to_source(self) -> (r: Option<T>) {
        match self {
            Option::None => Option::None,
            Option::Some(v) => Option::Some(v.to_source()),
        }
    }
}

impl<const N: usize> RedefinedConvert<[i128; N]> for [i128; N] {
    open spec fn converts(&self, src: &[i128; N]) -> bool {
        self == src
    }

    proof fn lemma_converts_determines_source(&self, x: &[i128; N], y: &[i128; N]) {
    }

    fn from_source(src: [i128; N]) -> (r: [i128; N]) {
        src
    }

    fn to_source(self) -> (r: [i128; N]) {
        self
    }
}

impl<A: DeepView, B: DeepView, C: RedefinedConvert<A>, D: RedefinedConvert<B>> RedefinedConvert<
    (A, B),
> for (C, D) {
    open spec fn converts(&self, src: &(A, B)) -> bool {
        self.0.converts(&src.0) && self.1.converts(&src.1)
    }

    proof fn lemma_converts_determines_source(&self, x: &(A, B), y: &(A, B)) {
        self.0.lemma_converts_determines_source(&x.0, &y.0);
        self.1.lemma_converts_determines_source(&x.1, &y.1);
    }

    fn from_source(src: (A, B)) -> (r: (C, D)) {
        (C::from_source(src.0), D::from_source(src.1))
    }

    fn to_source(self) -> (r: (A, B)) {
        (self.0.to_source(), self.1.to_source())
    }
}

impl RedefinedConvert<usize> for usize {
    open spec fn converts(&self, src: &usize) -> bool {
        self == src
    }

    proof fn lemma_converts_determines_source(&self, x: &usize, y: &usize) {
    }

    fn from_source(src: usize) -> (r: usize) {
        src
    }

    fn to_source(self) -> (r: usize) {
        self
    }
}

impl RedefinedConvert<u8> for u8 {
    open spec fn converts(&self, src: &u8) -> bool {
        self == src
    }

    proof fn lemma_converts_determines_source(&self, x: &u8, y: &u8) {
    }

    fn from_source(src: u8) -> (r: u8) {
        src
    }

    fn to_source(self) -> (r: u8) {
        self
    }
}

impl RedefinedConvert<u16> for u16 {
    open spec fn converts(&self, src: &u16) -> bool {
        self == src
    }

    proof fn lemma_converts_determines_source(&self, x: &u16, y: &u16) {
    }

    fn from_source(src: u16) -> (r: u16) {
        src
    }

    fn to_source(self) -> (r: u16) {
        self
    }
}

impl RedefinedConvert<u32> for u32 {
    open spec fn converts(&self, src: &u32) -> bool {
        self == src
    }

    proof fn lemma_converts_determines_source(&self, x: &u32, y: &u32) {
    }

    fn from_source(src: u32) -> (r: u32) {
        src
    }

    fn to_source(self) -> (r: u32) {
        self
    }
}

impl RedefinedConvert<u128> for u128 {
    open spec fn converts(&self, src: &u128) -> bool {
        self == src
    }

    proof fn lemma_converts_determines_source(&self, x: &u128, y: &u128) {
    }

    fn from_source(src: u128) -> (r: u128) {
        src
    }

    fn to_source(self) -> (r: u128) {
        self
    }
}

impl RedefinedConvert<i8> for i8 {
    open spec fn converts(&self, src: &i8) -> bool {
        self == src
    }

    proof fn lemma_converts_determines_source(&self, x: &i8, y: &i8) {
    }

    fn from_source(src: i8) -> (r: i8) {
        src
    }

    fn to_source(self) -> (r: i8) {
        self
    }
}

impl RedefinedConvert<i16> for i16 {
    open spec fn converts(&self, src: &i16) -> bool {
        self == src
    }

    proof fn lemma_converts_determines_source(&self, x: &i16, y: &i16) {
    }

    fn from_source(src: i16) -> (r: i16) {
        src
    }

    fn to_source(self) -> (r: i16) {
        self
    }
}

impl RedefinedConvert<i32> for i32 {
    open spec fn converts(&self, src: &i32) -> bool {
        self == src
    }

    proof fn lemma_converts_determines_source(&self, x: &i32, y: &i32) {
    }

    fn from_source(src: i32) -> (r: i32) {
        src
    }

    fn to_source(self) -> (r: i32) {
        self
    }
}

impl RedefinedConvert<i64> for i64 {
    open spec fn converts(&self, src: &i64) -> bool {
        self == src
    }

    proof fn lemma_converts_determines_source(&self, x: &i64, y: &i64) {
    }

    fn from_source(src: i64) -> (r: i64) {
        src
    }

    fn to_source(self) -> (r: i64) {
        self
    }
}

impl RedefinedConvert<i128> for i128 {
    open spec fn converts(&self, src: &i128) -> bool {
        self == src
    }

    proof fn lemma_converts_determines_source(&self, x: &i128, y: &i128) {
    }

    fn from_source(src: i128) -> (r: i128) {
        src
    }

    fn to_source(self) -> (r: i128) {
        self
    }
}

impl RedefinedConvert<isize> for isize {
    open spec fn converts(&self, src: &isize) -> bool {
        self == src
    }

    proof fn lemma_converts_determines_source(&self, x: &isize, y: &isize) {
    }

    fn from_source(src: isize) -> (r: isize) {
        src
    }

    fn to_source(self) -> (r: isize) {
        self
    }
}

impl RedefinedConvert<String> for String {
    open spec fn converts(&self, src: &String) -> bool {
        self == src
    }

    proof fn lemma_converts_determines_source(&self, x: &String, y: &String) {
    }

    fn from_source(src: String) -> (r: String) {
        src
    }

    fn to_source(self) -> (r: String) {
        self
    }
}

impl RedefinedConvert<char> for char {
    open spec fn converts(&self, src: &char) -> bool {
        self == src
    }

    proof fn lemma_converts_determines_source(&self, x: &char, y: &char) {
    }

    fn from_source(src: char) -> (r: char) {
        src
    }

    fn to_source(self) -> (r: char) {
        self
    }
}

impl RedefinedConvert<bool> for bool {
    open spec fn converts(&self, src: &bool) -> bool {
        self == src
    }

    proof fn lemma_converts_determines_source(&self, x: &bool, y: &bool) {
    }

    fn from_source(src: bool) -> (r: bool) {
        src
    }

    fn to_source(self) -> (r: bool) {
        self
    }
}

impl<
    A: DeepView,
    B: DeepView,
    C: DeepView,
    D: RedefinedConvert<A>,
    E: RedefinedConvert<B>,
    F: RedefinedConvert<C>,
> RedefinedConvert<(A, B, C)> for (D, E, F) {
    open spec fn converts(&self, src: &(A, B, C)) -> bool {
        self.0.converts(&src.0) && self.1.converts(&src.1) && self.2.converts(&src.2)
    }

    proof fn lemma_converts_determines_source(&self, x: &(A, B, C), y: &(A, B, C)) {
        self.0.lemma_converts_determines_source(&x.0, &y.0);
        self.1.lemma_converts_determines_source(&x.1, &y.1);
        self.2.lemma_converts_determines_source(&x.2, &y.2);
    }

    fn from_source(src: (A, B, C)) -> (r: (D, E, F)) {
        (D::from_source(src.0), E::from_source(src.1), F::from_source(src.2))
    }

    fn to_source(self) -> (r: (A, B, C)) {
        (self.0.to_source(), self.1.to_source(), self.2.to_source())
    }
}


impl<
    A: DeepView,
    B: DeepView,
    C: DeepView,
    D: DeepView,
    E: RedefinedConvert<A>,
    F: RedefinedConvert<B>,
    G: RedefinedConvert<C>,
    H: RedefinedConvert<D>,
> RedefinedConvert<(A, B, C, D)> for (E, F, G, H) {
    open spec fn converts(&self, src: &(A, B, C, D)) -> bool {
        self.0.converts(&src.0) && self.1.converts(&src.1) && self.2.converts(&src.2) && self.3.converts(&src.3)
    }

    proof fn lemma_converts_determines_source(&self, x: &(A, B, C, D), y: &(A, B, C, D)) {
        self.0.lemma_converts_determines_source(&x.0, &y.0);
        self.1.lemma_converts_determines_source(&x.1, &y.1);
        self.2.lemma_converts_determines_source(&x.2, &y.2);
        self.3.lemma_converts_determines_source(&x.3, &y.3);
    }

    fn from_source(src: (A, B, C, D)) -> (r: (E, F, G, H)) {
        (E::from_source(src.0), F::from_source(src.1), G::from_source(src.2), H::from_source(src.3))
    }

    fn to_source(self) -> (r: (A, B, C, D)) {
        (self.0.to_source(), self.1.to_source(), self.2.to_source(), self.3.to_source())
    }
}

impl<
    A: DeepView,
    B: DeepView,
    C: DeepView,
    D: DeepView,
    E: DeepView,
    F: RedefinedConvert<A>,
    G: RedefinedConvert<B>,
    H: RedefinedConvert<C>,
    I: RedefinedConvert<D>,
    J: RedefinedConvert<E>,
> RedefinedConvert<(A, B, C, D, E)> for (F, G, H, I, J) {
    open spec fn converts(&self, src: &(A, B, C, D, E)) -> bool {
        self.0.converts(&src.0) && self.1.converts(&src.1) && self.2.converts(&src.2) && self.3.converts(&src.3) && self.4.converts(&src.4)
    }

    proof fn lemma_converts_determines_source(&self, x: &(A, B, C, D, E), y: &(A, B, C, D, E)) {
        self.0.lemma_converts_determines_source(&x.0, &y.0);
        self.1.lemma_converts_determines_source(&x.1, &y.1);
        self.2.lemma_converts_determines_source(&x.2, &y.2);
        self.3.lemma_converts_determines_source(&x.3, &y.3);
        self.4.lemma_converts_determines_source(&x.4, &y.4);
    }

    fn from_source(src: (A, B, C, D, E)) -> (r: (F, G, H, I, J)) {
        (F::from_source(src.0), G::from_source(src.1), H::from_source(src.2), I::from_source(src.3), J::from_source(src.4))
    }

    fn to_source(self) -> (r: (A, B, C, D, E)) {
        (self.0.to_source(), self.1.to_source(), self.2.to_source(), self.3.to_source(), self.4.to_source())
    }
}

impl<
    A: DeepView,
    B: DeepView,
    C: DeepView,
    D: DeepView,
    E: DeepView,
    F: DeepView,
    G: RedefinedConvert<A>,
    H: RedefinedConvert<B>,
    I: RedefinedConvert<C>,
    J: RedefinedConvert<D>,
    K: RedefinedConvert<E>,
    L: RedefinedConvert<F>,
> RedefinedConvert<(A, B, C, D, E, F)> for (G, H, I, J, K, L) {
    open spec fn converts(&self, src: &(A, B, C, D, E, F)) -> bool {
        self.0.converts(&src.0) && self.1.converts(&src.1) && self.2.converts(&src.2) && self.3.converts(&src.3) && self.4.converts(&src.4) && self.5.converts(&src.5)
    }

    proof fn lemma_converts_determines_source(&self, x: &(A, B, C, D, E, F), y: &(A, B, C, D, E, F)) {
        self.0.lemma_converts_determines_source(&x.0, &y.0);
        self.1.lemma_converts_determines_source(&x.1, &y.1);
        self.2.lemma_converts_determines_source(&x.2, &y.2);
        self.3.lemma_converts_determines_source(&x.3, &y.3);
        self.4.lemma_converts_determines_source(&x.4, &y.4);
        self.5.lemma_converts_determines_source(&x.5, &y.5);
    }

    fn from_source(src: (A, B, C, D, E, F)) -> (r: (G, H, I, J, K, L)) {
        (G::from_source(src.0), H::from_source(src.1), I::from_source(src.2), J::from_source(src.3), K::from_source(src.4), L::from_source(src.5))
    }

    fn to_source(self) -> (r: (A, B, C, D, E, F)) {
        (self.0.to_source(), self.1.to_source(), self.2.to_source(), self.3.to_source(), self.4.to_source(), self.5.to_source())
    }
}


impl<'a, T: DeepView + ?Sized> RedefinedConvert<&'a T> for &'a T {
    open spec fn converts(&self, src: &&'a T) -> bool {
        self == src
    }

    proof fn lemma_converts_determines_source(&self, x: &&'a T, y: &&'a T) {
    }

    fn from_source(src: &'a T) -> (r: &'a T) {
        src
    }

    fn to_source(self) -> (r: &'a T) {
        self
    }
}

impl<const N: usize> RedefinedConvert<[usize; N]> for [usize; N] {
    open spec fn converts(&self, src: &[usize; N]) -> bool {
        self == src
    }

    proof fn lemma_converts_determines_source(&self, x: &[usize; N], y: &[usize; N]) {
    }

    fn from_source(src: [usize; N]) -> (r: [usize; N]) {
        src
    }

    fn to_source(self) -> (r: [usize; N]) {
        self
    }
}

impl<const N: usize> RedefinedConvert<[u8; N]> for [u8; N] {
    open spec fn converts(&self, src: &[u8; N]) -> bool {
        self == src
    }

    proof fn lemma_converts_determines_source(&self, x: &[u8; N], y: &[u8; N]) {
    }

    fn from_source(src: [u8; N]) -> (r: [u8; N]) {
        src
    }

    fn to_source(self) -> (r: [u8; N]) {
        self
    }
}

impl<const N: usize> RedefinedConvert<[u16; N]> for [u16; N] {
    open spec fn converts(&self, src: &[u16; N]) -> bool {
        self == src
    }

    proof fn lemma_converts_determines_source(&self, x: &[u16; N], y: &[u16; N]) {
    }

    fn from_source(src: [u16; N]) -> (r: [u16; N]) {
        src
    }

    fn to_source(self) -> (r: [u16; N]) {
        self
    }
}

impl<const N: usize> RedefinedConvert<[u32; N]> for [u32; N] {
    open spec fn converts(&self, src: &[u32; N]) -> bool {
        self == src
    }

    proof fn lemma_converts_determines_source(&self, x: &[u32; N], y: &[u32; N]) {
    }

    fn from_source(src: [u32; N]) -> (r: [u32; N]) {
        src
    }

    fn to_source(self) -> (r: [u32; N]) {
        self
    }
}

impl<const N: usize> RedefinedConvert<[u64; N]> for [u64; N] {
    open spec fn converts(&self, src: &[u64; N]) -> bool {
        self == src
    }

    proof fn lemma_converts_determines_source(&self, x: &[u64; N], y: &[u64; N]) {
    }

    fn from_source(src: [u64; N]) -> (r: [u64; N]) {
        src
    }

    fn to_source(self) -> (r: [u64; N]) {
        self
    }
}

impl<const N: usize> RedefinedConvert<[u128; N]> for [u128; N] {
    open spec fn converts(&self, src: &[u128; N]) -> bool {
        self == src
    }

    proof fn lemma_converts_determines_source(&self, x: &[u128; N], y: &[u128; N]) {
    }

    fn from_source(src: [u128; N]) -> (r: [u128; N]) {
        src
    }

    fn to_source(self) -> (r: [u128; N]) {
        self
    }
}

impl<const N: usize> RedefinedConvert<[i8; N]> for [i8; N] {
    open spec fn converts(&self, src: &[i8; N]) -> bool {
        self == src
    }

    proof fn lemma_converts_determines_source(&self, x: &[i8; N], y: &[i8; N]) {
    }

    fn from_source(src: [i8; N]) -> (r: [i8; N]) {
        src
    }

    fn to_source(self) -> (r: [i8; N]) {
        self
    }
}

impl<const N: usize> RedefinedConvert<[i16; N]> for [i16; N] {
    open spec fn converts(&self, src: &[i16; N]) -> bool {
        self == src
    }

    proof fn lemma_converts_determines_source(&self, x: &[i16; N], y: &[i16; N]) {
    }

    fn from_source(src: [i16; N]) -> (r: [i16; N]) {
        src
    }

    fn to_source(self) -> (r: [i16; N]) {
        self
    }
}

impl<const N: usize> RedefinedConvert<[i32; N]> for [i32; N] {
    open spec fn converts(&self, src: &[i32; N]) -> bool {
        self == src
    }

    proof fn lemma_converts_determines_source(&self, x: &[i32; N], y: &[i32; N]) {
    }

    fn from_source(src: [i32; N]) -> (r: [i32; N]) {
        src
    }

    fn to_source(self) -> (r: [i32; N]) {
        self
    }
}

impl<const N: usize> RedefinedConvert<[i64; N]> for [i64; N] {
    open spec fn converts(&self, src: &[i64; N]) -> bool {
        self == src
    }

    proof fn lemma_converts_determines_source(&self, x: &[i64; N], y: &[i64; N]) {
    }

    fn from_source(src: [i64; N]) -> (r: [i64; N]) {
        src
    }

    fn to_source(self) -> (r: [i64; N]) {
        self
    }
}

impl<const N: usize> RedefinedConvert<[String; N]> for [String; N] {
    open spec fn converts(&self, src: &[String; N]) -> bool {
        self == src
    }

    proof fn lemma_converts_determines_source(&self, x: &[String; N], y: &[String; N]) {
    }

    fn from_source(src: [String; N]) -> (r: [String; N]) {
        src
    }

    fn to_source(self) -> (r: [String; N]) {
        self
    }
}

impl<const N: usize> RedefinedConvert<[char; N]> for [char; N] {
    open spec fn converts(&self, src: &[char; N]) -> bool {
        self == src
    }

    proof fn lemma_converts_determines_source(&self, x: &[char; N], y: &[char; N]) {
    }

    fn from_source(src: [char; N]) -> (r: [char; N]) {
        src
    }

    fn to_source(self) -> (r: [char; N]) {
        self
    }
}

impl<const N: usize> RedefinedConvert<[bool; N]> for [bool; N] {
    open spec fn converts(&self, src: &[bool; N]) -> bool {
        self == src
    }

    proof fn lemma_converts_determines_source(&self, x: &[bool; N], y: &[bool; N]) {
    }

    fn from_source(src: [bool; N]) -> (r: [bool; N]) {
        src
    }

    fn to_source(self) -> (r: [bool; N]) {
        self
    }
}

impl RedefinedConvert<()> for () {
    open spec fn converts(&self, src: &()) -> bool {
        self == src
    }

    proof fn lemma_converts_determines_source(&self, x: &(), y: &()) {
    }

    fn from_source(src: ()) -> (r: ()) {
        src
    }

    fn to_source(self) -> (r: ()) {
        self
    }
}

impl<T1: DeepView + RedefinedConvert<T1>> RedefinedConvert<(T1,)> for (T1,) {
    open spec fn converts(&self, src: &(T1,)) -> bool {
        self == src
    }

    proof fn lemma_converts_determines_source(&self, x: &(T1,), y: &(T1,)) {
    }

    fn from_source(src: (T1,)) -> (r: (T1,)) {
        src
    }

    fn to_source(self) -> (r: (T1,)) {
        self
    }
}

impl<T1: DeepView + RedefinedConvert<T1>, T2: DeepView + RedefinedConvert<T2>, T3: DeepView + RedefinedConvert<T3>, T4: DeepView + RedefinedConvert<T4>, T5: DeepView + RedefinedConvert<T5>, T6: DeepView + RedefinedConvert<T6>, T7: DeepView + RedefinedConvert<T7>> RedefinedConvert<(T1, T2, T3, T4, T5, T6, T7)> for (T1, T2, T3, T4, T5, T6, T7) {
    open spec fn converts(&self, src: &(T1, T2, T3, T4, T5, T6, T7)) -> bool {
        self == src
    }

    proof fn lemma_converts_determines_source(&self, x: &(T1, T2, T3, T4, T5, T6, T7), y: &(T1, T2, T3, T4, T5, T6, T7)) {
    }

    fn from_source(src: (T1, T2, T3, T4, T5, T6, T7)) -> (r: (T1, T2, T3, T4, T5, T6, T7)) {
        src
    }

    fn to_source(self) -> (r: (T1, T2, T3, T4, T5, T6, T7)) {
        self
    }
}

impl<T1: DeepView + RedefinedConvert<T1>, T2: DeepView + RedefinedConvert<T2>, T3: DeepView + RedefinedConvert<T3>, T4: DeepView + RedefinedConvert<T4>, T5: DeepView + RedefinedConvert<T5>, T6: DeepView + RedefinedConvert<T6>, T7: DeepView + RedefinedConvert<T7>, T8: DeepView + RedefinedConvert<T8>> RedefinedConvert<(T1, T2, T3, T4, T5, T6, T7, T8)> for (T1, T2, T3, T4, T5, T6, T7, T8) {
    open spec fn converts(&self, src: &(T1, T2, T3, T4, T5, T6, T7, T8)) -> bool {
        self == src
    }

    proof fn lemma_converts_determines_source(&self, x: &(T1, T2, T3, T4, T5, T6, T7, T8), y: &(T1, T2, T3, T4, T5, T6, T7, T8)) {
    }

    fn from_source(src: (T1, T2, T3, T4, T5, T6, T7, T8)) -> (r: (T1, T2, T3, T4, T5, T6, T7, T8)) {
        src
    }

    fn to_source(self) -> (r: (T1, T2, T3, T4, T5, T6, T7, T8)) {
        self
    }
}

impl<T1: DeepView + RedefinedConvert<T1>, T2: DeepView + RedefinedConvert<T2>, T3: DeepView + RedefinedConvert<T3>, T4: DeepView + RedefinedConvert<T4>, T5: DeepView + RedefinedConvert<T5>, T6: DeepView + RedefinedConvert<T6>, T7: DeepView + RedefinedConvert<T7>, T8: DeepView + RedefinedConvert<T8>, T9: DeepView + RedefinedConvert<T9>> RedefinedConvert<(T1, T2, T3, T4, T5, T6, T7, T8, T9)> for (T1, T2, T3, T4, T5, T6, T7, T8, T9) {
    open spec fn converts(&self, src: &(T1, T2, T3, T4, T5, T6, T7, T8, T9)) -> bool {
        self == src
    }

    proof fn lemma_converts_determines_source(&self, x: &(T1, T2, T3, T4, T5, T6, T7, T8, T9), y: &(T1, T2, T3, T4, T5, T6, T7, T8, T9)) {
    }

    fn from_source(src: (T1, T2, T3, T4, T5, T6, T7, T8, T9)) -> (r: (T1, T2, T3, T4, T5, T6, T7, T8, T9)) {
        src
    }

    fn to_source(self) -> (r: (T1, T2, T3, T4, T5, T6, T7, T8, T9)) {
        self
    }
}

impl<T1: DeepView + RedefinedConvert<T1>, T2: DeepView + RedefinedConvert<T2>, T3: DeepView + RedefinedConvert<T3>, T4: DeepView + RedefinedConvert<T4>, T5: DeepView + RedefinedConvert<T5>, T6: DeepView + RedefinedConvert<T6>, T7: DeepView + RedefinedConvert<T7>, T8: DeepView + RedefinedConvert<T8>, T9: DeepView + RedefinedConvert<T9>, T10: DeepView + RedefinedConvert<T10>> RedefinedConvert<(T1, T2, T3, T4, T5, T6, T7, T8, T9, T10)> for (T1, T2, T3, T4, T5, T6, T7, T8, T9, T10) {
    open spec fn converts(&self, src: &(T1, T2, T3, T4, T5, T6, T7, T8, T9, T10)) -> bool {
        self == src
    }

    proof fn lemma_converts_determines_source(&self, x: &(T1, T2, T3, T4, T5, T6, T7, T8, T9, T10), y: &(T1, T2, T3, T4, T5, T6, T7, T8, T9, T10)) {
    }

    fn from_source(src: (T1, T2, T3, T4, T5, T6, T7, T8, T9, T10)) -> (r: (T1, T2, T3, T4, T5, T6, T7, T8, T9, T10)) {
        src
    }

    fn to_source(self) -> (r: (T1, T2, T3, T4, T5, T6, T7, T8, T9, T10)) {
        self
    }
}

} // verus!
