//! Uniform values of a closed set of types, stored by name.

use crate::graphics::name_map::NameMap;
use crate::graphics::shader::error::{Fault, ShaderError};
use crate::graphics::utility::FloatBits;
use vstd::prelude::*;

verus! {

/// The type of a uniform value.
#[derive(Clone, Copy, Debug, PartialEq, Eq, Structural)]
pub enum UniformKind {
    Float,
    Int,
    UnsignedInt,
    Vec2,
    Vec3,
    Vec4,
    Mat4,
}

/// A uniform value together with its type.
#[derive(Clone, Copy, Debug, PartialEq, Eq)]
pub enum UniformValue {
    Float(FloatBits),
    Int(i32),
    UnsignedInt(u32),
    Vec2([FloatBits; 2]),
    Vec3([FloatBits; 3]),
    Vec4([FloatBits; 4]),
    Mat4([FloatBits; 16]),
}

impl UniformValue {
    pub open spec fn spec_kind(self) -> UniformKind {
        match self {
            UniformValue::Float(_) => UniformKind::Float,
            UniformValue::Int(_) => UniformKind::Int,
            UniformValue::UnsignedInt(_) => UniformKind::UnsignedInt,
            UniformValue::Vec2(_) => UniformKind::Vec2,
            UniformValue::Vec3(_) => UniformKind::Vec3,
            UniformValue::Vec4(_) => UniformKind::Vec4,
            UniformValue::Mat4(_) => UniformKind::Mat4,
        }
    }

    pub fn kind(&self) -> (kind: UniformKind)
        ensures
            kind == self.spec_kind(),
    {
        match self {
            UniformValue::Float(_) => UniformKind::Float,
            UniformValue::Int(_) => UniformKind::Int,
            UniformValue::UnsignedInt(_) => UniformKind::UnsignedInt,
            UniformValue::Vec2(_) => UniformKind::Vec2,
            UniformValue::Vec3(_) => UniformKind::Vec3,
            UniformValue::Vec4(_) => UniformKind::Vec4,
            UniformValue::Mat4(_) => UniformKind::Mat4,
        }
    }
}

/// A host type that a uniform can hold.
///
/// Each implementor stands for one [`UniformKind`]: `wrap` tags a value with
/// it, and `peek` and `peek_mut` give the value back from a slot of that
/// kind and from no other.
pub trait UniformData: Sized {
    spec fn spec_kind() -> UniformKind;

    spec fn spec_wrap(self) -> UniformValue;

    /// A wrapped value has the implementor's kind, and wrapping loses
    /// nothing.
    proof fn lemma_wrap(a: Self, b: Self)
        ensures
            a.spec_wrap().spec_kind() == Self::spec_kind(),
            a.spec_wrap() == b.spec_wrap() ==> a == b,
    ;

    fn kind() -> (kind: UniformKind)
        ensures
            kind == Self::spec_kind(),
    ;

    fn wrap(self) -> (value: UniformValue)
        ensures
            value == self.spec_wrap(),
    ;

    fn peek(value: &UniformValue) -> (data: Option<&Self>)
        ensures
            match data {
                Some(data) => data.spec_wrap() == *value,
                None => value.spec_kind() != Self::spec_kind(),
            },
    ;

    fn peek_mut(value: &mut UniformValue) -> (data: Option<&mut Self>)
        ensures
            match data {
                Some(data) => data.spec_wrap() == *old(value)
                    && *final(value) == final(data).spec_wrap(),
                None => old(value).spec_kind() != Self::spec_kind()
                    && *final(value) == *old(value),
            },
    ;
}

impl UniformData for FloatBits {
    open spec fn spec_kind() -> UniformKind {
        UniformKind::Float
    }

    open spec fn spec_wrap(self) -> UniformValue {
        UniformValue::Float(self)
    }

    proof fn lemma_wrap(a: Self, b: Self) {
    }

    fn kind() -> (kind: UniformKind) {
        UniformKind::Float
    }

    fn wrap(self) -> (value: UniformValue) {
        UniformValue::Float(self)
    }

    fn peek(value: &UniformValue) -> (data: Option<&Self>) {
        match value {
            UniformValue::Float(data) => Some(data),
            _ => None,
        }
    }

    fn peek_mut(value: &mut UniformValue) -> (data: Option<&mut Self>) {
        match value {
            UniformValue::Float(data) => Some(data),
            _ => None,
        }
    }
}

impl UniformData for i32 {
    open spec fn spec_kind() -> UniformKind {
        UniformKind::Int
    }

    open spec fn spec_wrap(self) -> UniformValue {
        UniformValue::Int(self)
    }

    proof fn lemma_wrap(a: Self, b: Self) {
    }

    fn kind() -> (kind: UniformKind) {
        UniformKind::Int
    }

    fn wrap(self) -> (value: UniformValue) {
        UniformValue::Int(self)
    }

    fn peek(value: &UniformValue) -> (data: Option<&Self>) {
        match value {
            UniformValue::Int(data) => Some(data),
            _ => None,
        }
    }

    fn peek_mut(value: &mut UniformValue) -> (data: Option<&mut Self>) {
        match value {
            UniformValue::Int(data) => Some(data),
            _ => None,
        }
    }
}

impl UniformData for u32 {
    open spec fn spec_kind() -> UniformKind {
        UniformKind::UnsignedInt
    }

    open spec fn spec_wrap(self) -> UniformValue {
        UniformValue::UnsignedInt(self)
    }

    proof fn lemma_wrap(a: Self, b: Self) {
    }

    fn kind() -> (kind: UniformKind) {
        UniformKind::UnsignedInt
    }

    fn wrap(self) -> (value: UniformValue) {
        UniformValue::UnsignedInt(self)
    }

    fn peek(value: &UniformValue) -> (data: Option<&Self>) {
        match value {
            UniformValue::UnsignedInt(data) => Some(data),
            _ => None,
        }
    }

    fn peek_mut(value: &mut UniformValue) -> (data: Option<&mut Self>) {
        match value {
            UniformValue::UnsignedInt(data) => Some(data),
            _ => None,
        }
    }
}

impl UniformData for [FloatBits; 2] {
    open spec fn spec_kind() -> UniformKind {
        UniformKind::Vec2
    }

    open spec fn spec_wrap(self) -> UniformValue {
        UniformValue::Vec2(self)
    }

    proof fn lemma_wrap(a: Self, b: Self) {
    }

    fn kind() -> (kind: UniformKind) {
        UniformKind::Vec2
    }

    fn wrap(self) -> (value: UniformValue) {
        UniformValue::Vec2(self)
    }

    fn peek(value: &UniformValue) -> (data: Option<&Self>) {
        match value {
            UniformValue::Vec2(data) => Some(data),
            _ => None,
        }
    }

    fn peek_mut(value: &mut UniformValue) -> (data: Option<&mut Self>) {
        match value {
            UniformValue::Vec2(data) => Some(data),
            _ => None,
        }
    }
}

impl UniformData for [FloatBits; 3] {
    open spec fn spec_kind() -> UniformKind {
        UniformKind::Vec3
    }

    open spec fn spec_wrap(self) -> UniformValue {
        UniformValue::Vec3(self)
    }

    proof fn lemma_wrap(a: Self, b: Self) {
    }

    fn kind() -> (kind: UniformKind) {
        UniformKind::Vec3
    }

    fn wrap(self) -> (value: UniformValue) {
        UniformValue::Vec3(self)
    }

    fn peek(value: &UniformValue) -> (data: Option<&Self>) {
        match value {
            UniformValue::Vec3(data) => Some(data),
            _ => None,
        }
    }

    fn peek_mut(value: &mut UniformValue) -> (data: Option<&mut Self>) {
        match value {
            UniformValue::Vec3(data) => Some(data),
            _ => None,
        }
    }
}

impl UniformData for [FloatBits; 4] {
    open spec fn spec_kind() -> UniformKind {
        UniformKind::Vec4
    }

    open spec fn spec_wrap(self) -> UniformValue {
        UniformValue::Vec4(self)
    }

    proof fn lemma_wrap(a: Self, b: Self) {
    }

    fn kind() -> (kind: UniformKind) {
        UniformKind::Vec4
    }

    fn wrap(self) -> (value: UniformValue) {
        UniformValue::Vec4(self)
    }

    fn peek(value: &UniformValue) -> (data: Option<&Self>) {
        match value {
            UniformValue::Vec4(data) => Some(data),
            _ => None,
        }
    }

    fn peek_mut(value: &mut UniformValue) -> (data: Option<&mut Self>) {
        match value {
            UniformValue::Vec4(data) => Some(data),
            _ => None,
        }
    }
}

impl UniformData for [FloatBits; 16] {
    open spec fn spec_kind() -> UniformKind {
        UniformKind::Mat4
    }

    open spec fn spec_wrap(self) -> UniformValue {
        UniformValue::Mat4(self)
    }

    proof fn lemma_wrap(a: Self, b: Self) {
    }

    fn kind() -> (kind: UniformKind) {
        UniformKind::Mat4
    }

    fn wrap(self) -> (value: UniformValue) {
        UniformValue::Mat4(self)
    }

    fn peek(value: &UniformValue) -> (data: Option<&Self>) {
        match value {
            UniformValue::Mat4(data) => Some(data),
            _ => None,
        }
    }

    fn peek_mut(value: &mut UniformValue) -> (data: Option<&mut Self>) {
        match value {
            UniformValue::Mat4(data) => Some(data),
            _ => None,
        }
    }
}

/// The uniforms of one program: a value and its type under each name.
pub struct UniformMap {
    uniforms: NameMap<UniformValue>,
}

impl View for UniformMap {
    type V = Map<Seq<char>, UniformValue>;

    closed spec fn view(&self) -> Map<Seq<char>, UniformValue> {
        self.uniforms@
    }
}

/// What `insert` leaves in the map: the new slot, unless the name is taken.
pub open spec fn inserted(
    slots: Map<Seq<char>, UniformValue>,
    name: Seq<char>,
    value: UniformValue,
) -> Map<Seq<char>, UniformValue> {
    if slots.contains_key(name) {
        slots
    } else {
        slots.insert(name, value)
    }
}

/// What a typed read of `name` finds: the slot's value, if its type is
/// `kind`.
pub open spec fn typed_slot(
    slots: Map<Seq<char>, UniformValue>,
    name: Seq<char>,
    kind: UniformKind,
) -> Option<UniformValue> {
    if slots.contains_key(name) && slots[name].spec_kind() == kind {
        Some(slots[name])
    } else {
        None
    }
}

/// Of two inserts under one name the second is refused and changes nothing.
/// Where the name was free before the first, the slot holds the first value.
pub proof fn lemma_second_insert_is_refused(
    slots: Map<Seq<char>, UniformValue>,
    name: Seq<char>,
    first: UniformValue,
    second: UniformValue,
)
    ensures
        inserted(slots, name, first).contains_key(name),
        inserted(inserted(slots, name, first), name, second) == inserted(slots, name, first),
        !slots.contains_key(name) ==> inserted(inserted(slots, name, first), name, second)[name]
            == first,
{
}

/// After a value of type `T` went in under a free name, a read as `T` finds
/// that value and a read as a type of another kind finds nothing.
pub proof fn lemma_typed_read_after_insert<T: UniformData, U: UniformData>(
    slots: Map<Seq<char>, UniformValue>,
    name: Seq<char>,
    data: T,
)
    requires
        !slots.contains_key(name),
        T::spec_kind() != U::spec_kind(),
    ensures
        typed_slot(inserted(slots, name, data.spec_wrap()), name, T::spec_kind()) == Some(
            data.spec_wrap(),
        ),
        typed_slot(inserted(slots, name, data.spec_wrap()), name, U::spec_kind()).is_none(),
{
    T::lemma_wrap(data, data);
}

impl UniformMap {
    pub closed spec fn wf(&self) -> bool {
        self.uniforms.wf()
    }

    pub fn new() -> (map: Self)
        ensures
            map.wf(),
            map@ == Map::<Seq<char>, UniformValue>::empty(),
    {
        UniformMap { uniforms: NameMap::new() }
    }

    /// Stores `data` under `name`, unless the name is taken: then the map
    /// stays as it is and the error carries the name.
    pub fn insert<T: UniformData>(&mut self, name: &str, data: T) -> (result: Result<
        (),
        ShaderError,
    >)
        requires
            old(self).wf(),
        ensures
            final(self).wf(),
            final(self)@ == inserted(old(self)@, name@, data.spec_wrap()),
            match result {
                Ok(()) => !old(self)@.contains_key(name@),
                Err(error) => old(self)@.contains_key(name@) && error@
                    == (Fault::UniformAlreadyExists { name: name@ }),
            },
    {
        if self.uniforms.contains(name) {
            Err(ShaderError::UniformAlreadyExists { name: name.to_owned() })
        } else {
            self.uniforms.insert(name, data.wrap());
            Ok(())
        }
    }

    /// The value under `name`, if there is one and its type is `T`.
    pub fn get<T: UniformData>(&self, name: &str) -> (data: Option<&T>)
        requires
            self.wf(),
        ensures
            match data {
                Some(data) => typed_slot(self@, name@, T::spec_kind()) == Some(data.spec_wrap()),
                None => typed_slot(self@, name@, T::spec_kind()).is_none(),
            },
    {
        match self.uniforms.get(name) {
            Some(value) => match T::peek(value) {
                Some(data) => {
                    proof {
                        T::lemma_wrap(*data, *data);
                    }
                    Some(data)
                },
                None => None,
            },
            None => None,
        }
    }

    /// Mutable access to the value under `name`, if there is one and its
    /// type is `T`. The slot keeps its type: what the caller leaves behind
    /// is again a `T`.
    pub fn get_mut<T: UniformData>(&mut self, name: &str) -> (data: Option<&mut T>)
        requires
            old(self).wf(),
        ensures
            final(self).wf(),
            match data {
                Some(data) => typed_slot(old(self)@, name@, T::spec_kind()) == Some(
                    data.spec_wrap(),
                ) && final(self)@ == old(self)@.insert(name@, final(data).spec_wrap())
                    && final(self)@[name@].spec_kind() == old(self)@[name@].spec_kind(),
                None => typed_slot(old(self)@, name@, T::spec_kind()).is_none() && final(self)@
                    == old(self)@,
            },
    {
        match self.uniforms.get_mut(name) {
            Some(value) => match T::peek_mut(value) {
                Some(data) => {
                    proof {
                        T::lemma_wrap(*data, *data);
                        T::lemma_wrap(*final(data), *final(data));
                    }
                    Some(data)
                },
                None => None,
            },
            None => None,
        }
    }

    pub fn contains(&self, name: &str) -> (found: bool)
        requires
            self.wf(),
        ensures
            found == self@.contains_key(name@),
    {
        self.uniforms.contains(name)
    }

    /// Takes the slot under `name` out of the map, and hands back its value.
    pub fn remove(&mut self, name: &str) -> (removed: Option<UniformValue>)
        requires
            old(self).wf(),
        ensures
            final(self).wf(),
            final(self)@ == old(self)@.remove(name@),
            match removed {
                Some(value) => old(self)@.contains_key(name@) && value == old(self)@[name@],
                None => !old(self)@.contains_key(name@),
            },
    {
        self.uniforms.remove(name)
    }

    pub fn clear(&mut self)
        ensures
            final(self).wf(),
            final(self)@ == Map::<Seq<char>, UniformValue>::empty(),
    {
        self.uniforms.clear();
    }
}

} // verus!
