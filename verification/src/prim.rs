//! A ready-made cell type over the primitive types.
//!
//! `PrimCell` is a closed tagged union holding one value of any primitive
//! integer type, `bool` or `String`, each under its own type key. It serves
//! both as the default cell type for maps over primitive values and as the
//! worked example of the [`Any`] / [`IntoBox`] protocol.

use vstd::prelude::*;

use crate::any::{Any, IntoBox};

verus! {

/// A cell holding one value of a primitive type, tagged by that type.
#[derive(Clone, Debug, PartialEq, Eq)]
pub enum PrimCell {
    U8(u8),
    U16(u16),
    U32(u32),
    U64(u64),
    I8(i8),
    I16(i16),
    I32(i32),
    I64(i64),
    Bool(bool),
    Text(String),
}

impl Any for PrimCell {
    open spec fn key_of(self) -> u64 {
        match self {
            PrimCell::U8(_) => 0,
            PrimCell::U16(_) => 1,
            PrimCell::U32(_) => 2,
            PrimCell::U64(_) => 3,
            PrimCell::I8(_) => 4,
            PrimCell::I16(_) => 5,
            PrimCell::I32(_) => 6,
            PrimCell::I64(_) => 7,
            PrimCell::Bool(_) => 8,
            PrimCell::Text(_) => 9,
        }
    }

    fn key(&self) -> (k: u64) {
        match self {
            PrimCell::U8(_) => 0,
            PrimCell::U16(_) => 1,
            PrimCell::U32(_) => 2,
            PrimCell::U64(_) => 3,
            PrimCell::I8(_) => 4,
            PrimCell::I16(_) => 5,
            PrimCell::I32(_) => 6,
            PrimCell::I64(_) => 7,
            PrimCell::Bool(_) => 8,
            PrimCell::Text(_) => 9,
        }
    }
}

impl IntoBox<PrimCell> for u8 {
    open spec fn spec_key() -> u64 {
        0
    }

    open spec fn spec_box(self) -> PrimCell {
        PrimCell::U8(self)
    }

    open spec fn spec_unbox(c: PrimCell) -> Option<u8> {
        match c {
            PrimCell::U8(x) => Some(x),
            _ => None,
        }
    }

    proof fn laws() {
    }

    fn key() -> (k: u64) {
        0
    }

    fn into_box(self) -> (c: PrimCell) {
        PrimCell::U8(self)
    }

    fn unbox(c: PrimCell) -> (t: Option<u8>) {
        match c {
            PrimCell::U8(x) => Some(x),
            _ => None,
        }
    }

    fn unbox_ref(c: &PrimCell) -> (t: Option<&u8>) {
        match c {
            PrimCell::U8(x) => Some(x),
            _ => None,
        }
    }

    fn unbox_mut(c: &mut PrimCell) -> (t: Option<&mut u8>) {
        match c {
            PrimCell::U8(x) => Some(x),
            _ => None,
        }
    }
}

impl IntoBox<PrimCell> for u16 {
    open spec fn spec_key() -> u64 {
        1
    }

    open spec fn spec_box(self) -> PrimCell {
        PrimCell::U16(self)
    }

    open spec fn spec_unbox(c: PrimCell) -> Option<u16> {
        match c {
            PrimCell::U16(x) => Some(x),
            _ => None,
        }
    }

    proof fn laws() {
    }

    fn key() -> (k: u64) {
        1
    }

    fn into_box(self) -> (c: PrimCell) {
        PrimCell::U16(self)
    }

    fn unbox(c: PrimCell) -> (t: Option<u16>) {
        match c {
            PrimCell::U16(x) => Some(x),
            _ => None,
        }
    }

    fn unbox_ref(c: &PrimCell) -> (t: Option<&u16>) {
        match c {
            PrimCell::U16(x) => Some(x),
            _ => None,
        }
    }

    fn unbox_mut(c: &mut PrimCell) -> (t: Option<&mut u16>) {
        match c {
            PrimCell::U16(x) => Some(x),
            _ => None,
        }
    }
}

impl IntoBox<PrimCell> for u32 {
    open spec fn spec_key() -> u64 {
        2
    }

    open spec fn spec_box(self) -> PrimCell {
        PrimCell::U32(self)
    }

    open spec fn spec_unbox(c: PrimCell) -> Option<u32> {
        match c {
            PrimCell::U32(x) => Some(x),
            _ => None,
        }
    }

    proof fn laws() {
    }

    fn key() -> (k: u64) {
        2
    }

    fn into_box(self) -> (c: PrimCell) {
        PrimCell::U32(self)
    }

    fn unbox(c: PrimCell) -> (t: Option<u32>) {
        match c {
            PrimCell::U32(x) => Some(x),
            _ => None,
        }
    }

    fn unbox_ref(c: &PrimCell) -> (t: Option<&u32>) {
        match c {
            PrimCell::U32(x) => Some(x),
            _ => None,
        }
    }

    fn unbox_mut(c: &mut PrimCell) -> (t: Option<&mut u32>) {
        match c {
            PrimCell::U32(x) => Some(x),
            _ => None,
        }
    }
}

impl IntoBox<PrimCell> for u64 {
    open spec fn spec_key() -> u64 {
        3
    }

    open spec fn spec_box(self) -> PrimCell {
        PrimCell::U64(self)
    }

    open spec fn spec_unbox(c: PrimCell) -> Option<u64> {
        match c {
            PrimCell::U64(x) => Some(x),
            _ => None,
        }
    }

    proof fn laws() {
    }

    fn key() -> (k: u64) {
        3
    }

    fn into_box(self) -> (c: PrimCell) {
        PrimCell::U64(self)
    }

    fn unbox(c: PrimCell) -> (t: Option<u64>) {
        match c {
            PrimCell::U64(x) => Some(x),
            _ => None,
        }
    }

    fn unbox_ref(c: &PrimCell) -> (t: Option<&u64>) {
        match c {
            PrimCell::U64(x) => Some(x),
            _ => None,
        }
    }

    fn unbox_mut(c: &mut PrimCell) -> (t: Option<&mut u64>) {
        match c {
            PrimCell::U64(x) => Some(x),
            _ => None,
        }
    }
}

impl IntoBox<PrimCell> for i8 {
    open spec fn spec_key() -> u64 {
        4
    }

    open spec fn spec_box(self) -> PrimCell {
        PrimCell::I8(self)
    }

    open spec fn spec_unbox(c: PrimCell) -> Option<i8> {
        match c {
            PrimCell::I8(x) => Some(x),
            _ => None,
        }
    }

    proof fn laws() {
    }

    fn key() -> (k: u64) {
        4
    }

    fn into_box(self) -> (c: PrimCell) {
        PrimCell::I8(self)
    }

    fn unbox(c: PrimCell) -> (t: Option<i8>) {
        match c {
            PrimCell::I8(x) => Some(x),
            _ => None,
        }
    }

    fn unbox_ref(c: &PrimCell) -> (t: Option<&i8>) {
        match c {
            PrimCell::I8(x) => Some(x),
            _ => None,
        }
    }

    fn unbox_mut(c: &mut PrimCell) -> (t: Option<&mut i8>) {
        match c {
            PrimCell::I8(x) => Some(x),
            _ => None,
        }
    }
}

impl IntoBox<PrimCell> for i16 {
    open spec fn spec_key() -> u64 {
        5
    }

    open spec fn spec_box(self) -> PrimCell {
        PrimCell::I16(self)
    }

    open spec fn spec_unbox(c: PrimCell) -> Option<i16> {
        match c {
            PrimCell::I16(x) => Some(x),
            _ => None,
        }
    }

    proof fn laws() {
    }

    fn key() -> (k: u64) {
        5
    }

    fn into_box(self) -> (c: PrimCell) {
        PrimCell::I16(self)
    }

    fn unbox(c: PrimCell) -> (t: Option<i16>) {
        match c {
            PrimCell::I16(x) => Some(x),
            _ => None,
        }
    }

    fn unbox_ref(c: &PrimCell) -> (t: Option<&i16>) {
        match c {
            PrimCell::I16(x) => Some(x),
            _ => None,
        }
    }

    fn unbox_mut(c: &mut PrimCell) -> (t: Option<&mut i16>) {
        match c {
            PrimCell::I16(x) => Some(x),
            _ => None,
        }
    }
}

impl IntoBox<PrimCell> for i32 {
    open spec fn spec_key() -> u64 {
        6
    }

    open spec fn spec_box(self) -> PrimCell {
        PrimCell::I32(self)
    }

    open spec fn spec_unbox(c: PrimCell) -> Option<i32> {
        match c {
            PrimCell::I32(x) => Some(x),
            _ => None,
        }
    }

    proof fn laws() {
    }

    fn key() -> (k: u64) {
        6
    }

    fn into_box(self) -> (c: PrimCell) {
        PrimCell::I32(self)
    }

    fn unbox(c: PrimCell) -> (t: Option<i32>) {
        match c {
            PrimCell::I32(x) => Some(x),
            _ => None,
        }
    }

    fn unbox_ref(c: &PrimCell) -> (t: Option<&i32>) {
        match c {
            PrimCell::I32(x) => Some(x),
            _ => None,
        }
    }

    fn unbox_mut(c: &mut PrimCell) -> (t: Option<&mut i32>) {
        match c {
            PrimCell::I32(x) => Some(x),
            _ => None,
        }
    }
}

impl IntoBox<PrimCell> for i64 {
    open spec fn spec_key() -> u64 {
        7
    }

    open spec fn spec_box(self) -> PrimCell {
        PrimCell::I64(self)
    }

    open spec fn spec_unbox(c: PrimCell) -> Option<i64> {
        match c {
            PrimCell::I64(x) => Some(x),
            _ => None,
        }
    }

    proof fn laws() {
    }

    fn key() -> (k: u64) {
        7
    }

    fn into_box(self) -> (c: PrimCell) {
        PrimCell::I64(self)
    }

    fn unbox(c: PrimCell) -> (t: Option<i64>) {
        match c {
            PrimCell::I64(x) => Some(x),
            _ => None,
        }
    }

    fn unbox_ref(c: &PrimCell) -> (t: Option<&i64>) {
        match c {
            PrimCell::I64(x) => Some(x),
            _ => None,
        }
    }

    fn unbox_mut(c: &mut PrimCell) -> (t: Option<&mut i64>) {
        match c {
            PrimCell::I64(x) => Some(x),
            _ => None,
        }
    }
}

impl IntoBox<PrimCell> for bool {
    open spec fn spec_key() -> u64 {
        8
    }

    open spec fn spec_box(self) -> PrimCell {
        PrimCell::Bool(self)
    }

    open spec fn spec_unbox(c: PrimCell) -> Option<bool> {
        match c {
            PrimCell::Bool(x) => Some(x),
            _ => None,
        }
    }

    proof fn laws() {
    }

    fn key() -> (k: u64) {
        8
    }

    fn into_box(self) -> (c: PrimCell) {
        PrimCell::Bool(self)
    }

    fn unbox(c: PrimCell) -> (t: Option<bool>) {
        match c {
            PrimCell::Bool(x) => Some(x),
            _ => None,
        }
    }

    fn unbox_ref(c: &PrimCell) -> (t: Option<&bool>) {
        match c {
            PrimCell::Bool(x) => Some(x),
            _ => None,
        }
    }

    fn unbox_mut(c: &mut PrimCell) -> (t: Option<&mut bool>) {
        match c {
            PrimCell::Bool(x) => Some(x),
            _ => None,
        }
    }
}

impl IntoBox<PrimCell> for String {
    open spec fn spec_key() -> u64 {
        9
    }

    open spec fn spec_box(self) -> PrimCell {
        PrimCell::Text(self)
    }

    open spec fn spec_unbox(c: PrimCell) -> Option<String> {
        match c {
            PrimCell::Text(x) => Some(x),
            _ => None,
        }
    }

    proof fn laws() {
    }

    fn key() -> (k: u64) {
        9
    }

    fn into_box(self) -> (c: PrimCell) {
        PrimCell::Text(self)
    }

    fn unbox(c: PrimCell) -> (t: Option<String>) {
        match c {
            PrimCell::Text(x) => Some(x),
            _ => None,
        }
    }

    fn unbox_ref(c: &PrimCell) -> (t: Option<&String>) {
        match c {
            PrimCell::Text(x) => Some(x),
            _ => None,
        }
    }

    fn unbox_mut(c: &mut PrimCell) -> (t: Option<&mut String>) {
        match c {
            PrimCell::Text(x) => Some(x),
            _ => None,
        }
    }
}

} // verus!
