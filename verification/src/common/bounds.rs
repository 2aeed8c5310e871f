//! Thread-safety bounds shared by the framework's traits: bots, handlers and
//! senders cross threads on native targets.
use vstd::prelude::*;

verus! {

/// What a chat action sender must be to be shared between tasks.
pub trait ChatActionSenderBounds: Send + Sync {}

impl<T: Send + Sync + ?Sized> ChatActionSenderBounds for T {}

/// What a chat action future must be to run on any executor thread.
pub trait ChatActionFutureBounds: std::future::Future + Send {}

impl<T: std::future::Future + Send + ?Sized> ChatActionFutureBounds for T {}

/// What a bot must be to run on any executor thread.
pub trait BotBounds: Send {}

impl<T: Send> BotBounds for T {}

/// What a bot's run future must be.
pub trait BotFutureBounds: std::future::Future + Send {}

impl<T: std::future::Future + Send + ?Sized> BotFutureBounds for T {}

/// What platform context data must be to be shared between tasks.
pub trait ContextDataBounds: Send + Sync {}

impl<T: Send + Sync + ?Sized> ContextDataBounds for T {}

/// What an extracted value must be.
pub trait FromContextBounds: Send {}

impl<T: Send> FromContextBounds for T {}

/// What an extraction future must be.
pub trait ContextFutureBounds: std::future::Future + Send {}

impl<T: std::future::Future + Send + ?Sized> ContextFutureBounds for T {}

/// What a handler must be to be shared between tasks.
pub trait HandlerBounds: Send + Sync {}

impl<T: Send + Sync + ?Sized> HandlerBounds for T {}

/// What a handler function must be.
pub trait HandlerFnBounds: Send + Sync {}

impl<T: Send + Sync + ?Sized> HandlerFnBounds for T {}

/// What a handler's future must be.
pub trait HandlerFutureBounds: std::future::Future + Send {}

impl<T: std::future::Future + Send + ?Sized> HandlerFutureBounds for T {}

/// What a handler's return value must be.
pub trait IntoResponseBounds: Send {}

impl<T: Send> IntoResponseBounds for T {}

} // verus!
