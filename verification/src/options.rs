//! Per-entry options and the value types they are made of.
use crate::time::{
    duration_to_ticks, later_by, longer, sooner, span_of, ticks_of,
    ticks_to_duration, Duration, Timeout, Timestamp,
};
use vstd::prelude::*;

verus! {

/// Memory-eviction priority hint, forwarded to backends that can use it.
#[derive(Debug, Clone, Copy, PartialEq, Eq, Structural)]
pub enum Priority {
    /// Evicted first under memory pressure.
    Low,
    /// The default priority.
    Normal,
    /// Evicted last under memory pressure.
    High,
    /// Never evicted by the size policy.
    NeverRemove,
}

impl Default for Priority {
    fn default() -> (priority: Priority)
        ensures
            priority is Normal,
    {
        Priority::Normal
    }
}

/// What removing by tag does to the entries that carry the tag.
#[derive(Debug, Clone, Copy, PartialEq, Eq, Structural)]
pub enum RemoveByTagBehavior {
    /// Logically expire them, so that fail-safe can still serve them.
    Expire,
    /// Remove them for good.
    Remove,
}

impl Default for RemoveByTagBehavior {
    fn default() -> (behavior: RemoveByTagBehavior)
        ensures
            behavior is Expire,
    {
        RemoveByTagBehavior::Expire
    }
}

/// How the wire-format version is combined with a key of the distributed cache.
#[derive(Debug, Clone, Copy, PartialEq, Eq, Structural)]
pub enum KeyModifierMode {
    /// Put the version in front: `v1:key`.
    Prefix,
    /// Put the version behind: `key:v1`.
    Suffix,
    /// Leave the key as it is.
    Unmodified,
}

impl Default for KeyModifierMode {
    fn default() -> (mode: KeyModifierMode)
        ensures
            mode is Prefix,
    {
        KeyModifierMode::Prefix
    }
}

/// The bit pattern of the single-precision number one.
pub const ONE_BITS: u32 = 0x3f80_0000;

/// A validated eager-refresh threshold: a fraction strictly between nothing and the
/// whole, kept as the bit pattern of a single-precision number.
///
/// The bit patterns of positive numbers are ordered as the numbers are, and those of
/// negative numbers and of what is no number lie above all of them. So the fractions
/// are the patterns between that of zero and that of one.
#[derive(Debug, Clone, Copy, PartialEq, Eq, Structural)]
pub struct EagerThreshold {
    bits: u32,
}

impl EagerThreshold {
    /// The bit pattern of the fraction.
    pub closed spec fn pattern(self) -> u32 {
        self.bits
    }

    #[verifier::type_invariant]
    spec fn is_fraction(self) -> bool {
        0 < self.bits < ONE_BITS
    }

    /// The threshold with the given bit pattern, or `None` if the pattern is not that
    /// of a fraction strictly between nothing and the whole.
    pub fn from_bits(bits: u32) -> (threshold: Option<Self>)
        ensures
            match threshold {
                Some(t) => 0 < bits < ONE_BITS && t.pattern() == bits,
                None => !(0 < bits < ONE_BITS),
            },
    {
        if 0 < bits && bits < ONE_BITS {
            Some(EagerThreshold { bits })
        } else {
            None
        }
    }

    /// The bit pattern of the fraction, always that of a fraction strictly between
    /// nothing and the whole.
    pub fn bits(self) -> (bits: u32)
        ensures
            bits == self.pattern(),
            0 < bits < ONE_BITS,
    {
        proof {
            use_type_invariant(&self);
        }
        self.bits
    }
}

/// Options controlling how a single entry is cached.
#[derive(Debug, Clone, Copy)]
pub struct EntryOptions {
    /// The logical duration: how long a value stays fresh.
    pub duration: Duration,
    /// Overrides `duration` in the memory store.
    pub memory_duration: Option<Duration>,
    /// Overrides `duration` in the distributed cache.
    pub distributed_duration: Option<Duration>,
    /// When to refresh proactively, as a share of the freshness window.
    pub eager_refresh_threshold: Option<EagerThreshold>,
    /// The most that a fresh entry's expiration is randomly put off by.
    pub jitter_max: Duration,
    /// The general wait for a single-flight lock.
    pub lock_timeout: Timeout,
    /// Overrides `lock_timeout` for the in-process lock.
    pub memory_lock_timeout: Option<Timeout>,
    /// Overrides `lock_timeout` for the cross-node lock.
    pub distributed_lock_timeout: Option<Timeout>,
    /// Whether a stale value may stand in for a failing factory.
    pub is_fail_safe_enabled: bool,
    /// How long a value stays usable as a fallback.
    pub fail_safe_max_duration: Duration,
    /// How long a fallback is served before the factory is tried again.
    pub fail_safe_throttle_duration: Duration,
    /// Overrides `fail_safe_max_duration` in the distributed cache.
    pub distributed_fail_safe_max_duration: Option<Duration>,
    /// The factory's wait when there is something to fall back to.
    pub factory_soft_timeout: Timeout,
    /// The factory's wait in any case.
    pub factory_hard_timeout: Timeout,
    /// Whether a timed-out factory may finish in the background.
    pub allow_timed_out_factory_background_completion: bool,
    /// Whether memory reads are skipped.
    pub skip_memory_read: bool,
    /// Whether memory writes are skipped.
    pub skip_memory_write: bool,
    /// The eviction priority hint.
    pub priority: Priority,
    /// The entry's size weight.
    pub size: Option<i64>,
    /// Whether read-only lookups may return a stale value.
    pub allow_stale_on_read_only: bool,
    /// The distributed read's wait when there is something to fall back to.
    pub distributed_soft_timeout: Timeout,
    /// The distributed read's wait in any case.
    pub distributed_hard_timeout: Timeout,
    /// Whether distributed writes may run in the background.
    pub allow_background_distributed_operations: bool,
    /// Whether backend errors reach the caller.
    pub rethrow_distributed_exceptions: bool,
    /// Whether (de)serialization errors reach the caller.
    pub rethrow_serialization_exceptions: bool,
    /// Whether distributed reads are skipped.
    pub skip_distributed_read: bool,
    /// Whether distributed writes are skipped.
    pub skip_distributed_write: bool,
    /// Whether distributed reads are skipped when memory holds a stale value.
    pub skip_distributed_read_when_stale: bool,
    /// Whether the cross-node lock is skipped.
    pub skip_distributed_locker: bool,
    /// Whether values are cloned out on read.
    pub enable_auto_clone: bool,
    /// Whether backplane notifications are suppressed.
    pub skip_backplane_notifications: bool,
    /// Whether a publish may run in the background.
    pub allow_background_backplane_operations: bool,
    /// Whether backplane errors reach the caller.
    pub rethrow_backplane_exceptions: bool,
}

/// Options with the given freshness window and everything else at its default.
pub open spec fn baseline(duration: Duration) -> EntryOptions {
    EntryOptions {
        duration,
        memory_duration: None,
        distributed_duration: None,
        eager_refresh_threshold: None,
        jitter_max: Duration { nanos: 0 },
        lock_timeout: Timeout::Infinite,
        memory_lock_timeout: None,
        distributed_lock_timeout: None,
        is_fail_safe_enabled: false,
        fail_safe_max_duration: Duration { nanos: 86_400_000_000_000 },
        fail_safe_throttle_duration: Duration { nanos: 30_000_000_000 },
        distributed_fail_safe_max_duration: None,
        factory_soft_timeout: Timeout::Infinite,
        factory_hard_timeout: Timeout::Infinite,
        allow_timed_out_factory_background_completion: true,
        skip_memory_read: false,
        skip_memory_write: false,
        priority: Priority::Normal,
        size: None,
        allow_stale_on_read_only: false,
        distributed_soft_timeout: Timeout::Infinite,
        distributed_hard_timeout: Timeout::Infinite,
        allow_background_distributed_operations: false,
        rethrow_distributed_exceptions: false,
        rethrow_serialization_exceptions: true,
        skip_distributed_read: false,
        skip_distributed_write: false,
        skip_distributed_read_when_stale: false,
        skip_distributed_locker: false,
        enable_auto_clone: false,
        skip_backplane_notifications: false,
        allow_background_backplane_operations: true,
        rethrow_backplane_exceptions: false,
    }
}

impl Default for EntryOptions {
    /// Half a minute of freshness, no fail-safe, no timeouts.
    fn default() -> (options: EntryOptions)
        ensures
            options == baseline(Duration { nanos: 30_000_000_000 }),
    {
        EntryOptions {
            duration: Duration::from_secs(30),
            memory_duration: None,
            distributed_duration: None,
            eager_refresh_threshold: None,
            jitter_max: Duration::zero(),
            lock_timeout: Timeout::Infinite,
            memory_lock_timeout: None,
            distributed_lock_timeout: None,
            is_fail_safe_enabled: false,
            fail_safe_max_duration: Duration::from_secs(60 * 60 * 24),
            fail_safe_throttle_duration: Duration::from_secs(30),
            distributed_fail_safe_max_duration: None,
            factory_soft_timeout: Timeout::Infinite,
            factory_hard_timeout: Timeout::Infinite,
            allow_timed_out_factory_background_completion: true,
            skip_memory_read: false,
            skip_memory_write: false,
            priority: Priority::Normal,
            size: None,
            allow_stale_on_read_only: false,
            distributed_soft_timeout: Timeout::Infinite,
            distributed_hard_timeout: Timeout::Infinite,
            allow_background_distributed_operations: false,
            rethrow_distributed_exceptions: false,
            rethrow_serialization_exceptions: true,
            skip_distributed_read: false,
            skip_distributed_write: false,
            skip_distributed_read_when_stale: false,
            skip_distributed_locker: false,
            enable_auto_clone: false,
            skip_backplane_notifications: false,
            allow_background_backplane_operations: true,
            rethrow_backplane_exceptions: false,
        }
    }
}

impl EntryOptions {
    /// Options with the given freshness window and everything else at its default.
    pub fn new(duration: Duration) -> (options: Self)
        ensures
            options == baseline(duration),
    {
        EntryOptions { duration, ..EntryOptions::default() }
    }

    /// Sets the freshness window.
    pub fn with_duration(self, duration: Duration) -> (options: Self)
        ensures
            options == (EntryOptions { duration, ..self }),
    {
        EntryOptions { duration, ..self }
    }

    /// Overrides the freshness window in the memory store.
    pub fn with_memory_duration(self, duration: Duration) -> (options: Self)
        ensures
            options == (EntryOptions { memory_duration: Some(duration), ..self }),
    {
        EntryOptions { memory_duration: Some(duration), ..self }
    }

    /// Overrides the freshness window in the distributed cache.
    pub fn with_distributed_duration(self, duration: Duration) -> (options: Self)
        ensures
            options == (EntryOptions { distributed_duration: Some(duration), ..self }),
    {
        EntryOptions { distributed_duration: Some(duration), ..self }
    }

    /// Enables eager refresh at the given threshold; `None` disables it.
    pub fn with_eager_refresh(self, threshold: Option<EagerThreshold>) -> (options: Self)
        ensures
            options == (EntryOptions { eager_refresh_threshold: threshold, ..self }),
    {
        EntryOptions { eager_refresh_threshold: threshold, ..self }
    }

    /// Sets the most that a fresh entry's expiration is randomly put off by.
    pub fn with_jitter_max(self, jitter_max: Duration) -> (options: Self)
        ensures
            options == (EntryOptions { jitter_max, ..self }),
    {
        EntryOptions { jitter_max, ..self }
    }

    /// Sets the general wait for a single-flight lock.
    pub fn with_lock_timeout(self, timeout: Timeout) -> (options: Self)
        ensures
            options == (EntryOptions { lock_timeout: timeout, ..self }),
    {
        EntryOptions { lock_timeout: timeout, ..self }
    }

    /// Overrides the wait for the in-process lock.
    pub fn with_memory_lock_timeout(self, timeout: Timeout) -> (options: Self)
        ensures
            options == (EntryOptions { memory_lock_timeout: Some(timeout), ..self }),
    {
        EntryOptions { memory_lock_timeout: Some(timeout), ..self }
    }

    /// Overrides the wait for the cross-node lock.
    pub fn with_distributed_lock_timeout(self, timeout: Timeout) -> (options: Self)
        ensures
            options == (EntryOptions { distributed_lock_timeout: Some(timeout), ..self }),
    {
        EntryOptions { distributed_lock_timeout: Some(timeout), ..self }
    }

    /// Enables or disables fail-safe and, where given, sets its windows.
    pub fn with_fail_safe(
        self,
        enabled: bool,
        max_duration: Option<Duration>,
        throttle_duration: Option<Duration>,
    ) -> (options: Self)
        ensures
            options == (EntryOptions {
                is_fail_safe_enabled: enabled,
                fail_safe_max_duration: match max_duration {
                    Some(max) => max,
                    None => self.fail_safe_max_duration,
                },
                fail_safe_throttle_duration: match throttle_duration {
                    Some(throttle) => throttle,
                    None => self.fail_safe_throttle_duration,
                },
                ..self
            }),
    {
        EntryOptions {
            is_fail_safe_enabled: enabled,
            fail_safe_max_duration: max_duration.unwrap_or(self.fail_safe_max_duration),
            fail_safe_throttle_duration: throttle_duration.unwrap_or(
                self.fail_safe_throttle_duration,
            ),
            ..self
        }
    }

    /// Sets the factory's soft and hard timeouts, and whether a timed-out factory
    /// keeps running in the background.
    pub fn with_factory_timeouts(
        self,
        soft: Timeout,
        hard: Timeout,
        allow_background_completion: bool,
    ) -> (options: Self)
        ensures
            options == (EntryOptions {
                factory_soft_timeout: soft,
                factory_hard_timeout: hard,
                allow_timed_out_factory_background_completion: allow_background_completion,
                ..self
            }),
    {
        EntryOptions {
            factory_soft_timeout: soft,
            factory_hard_timeout: hard,
            allow_timed_out_factory_background_completion: allow_background_completion,
            ..self
        }
    }

    /// Sets the eviction priority.
    pub fn with_priority(self, priority: Priority) -> (options: Self)
        ensures
            options == (EntryOptions { priority, ..self }),
    {
        EntryOptions { priority, ..self }
    }

    /// Sets the entry's size weight.
    pub fn with_size(self, size: i64) -> (options: Self)
        ensures
            options == (EntryOptions { size: Some(size), ..self }),
    {
        EntryOptions { size: Some(size), ..self }
    }

    /// Lets read-only lookups return a stale value.
    pub fn with_allow_stale_on_read_only(self, allow: bool) -> (options: Self)
        ensures
            options == (EntryOptions { allow_stale_on_read_only: allow, ..self }),
    {
        EntryOptions { allow_stale_on_read_only: allow, ..self }
    }

    /// Skips the memory store for this operation.
    pub fn with_skip_memory(self, skip_read: bool, skip_write: bool) -> (options: Self)
        ensures
            options == (EntryOptions {
                skip_memory_read: skip_read,
                skip_memory_write: skip_write,
                ..self
            }),
    {
        EntryOptions { skip_memory_read: skip_read, skip_memory_write: skip_write, ..self }
    }

    /// Skips the distributed cache for this operation.
    pub fn with_skip_distributed(self, skip_read: bool, skip_write: bool) -> (options: Self)
        ensures
            options == (EntryOptions {
                skip_distributed_read: skip_read,
                skip_distributed_write: skip_write,
                ..self
            }),
    {
        EntryOptions {
            skip_distributed_read: skip_read,
            skip_distributed_write: skip_write,
            ..self
        }
    }

    /// Skips the distributed read when memory holds a stale value.
    pub fn with_skip_distributed_read_when_stale(self, skip: bool) -> (options: Self)
        ensures
            options == (EntryOptions { skip_distributed_read_when_stale: skip, ..self }),
    {
        EntryOptions { skip_distributed_read_when_stale: skip, ..self }
    }

    /// Sets the distributed cache's soft and hard timeouts.
    pub fn with_distributed_timeouts(self, soft: Timeout, hard: Timeout) -> (options: Self)
        ensures
            options == (EntryOptions {
                distributed_soft_timeout: soft,
                distributed_hard_timeout: hard,
                ..self
            }),
    {
        EntryOptions { distributed_soft_timeout: soft, distributed_hard_timeout: hard, ..self }
    }

    /// Lets distributed writes run in the background.
    pub fn with_allow_background_distributed_operations(self, allow: bool) -> (options: Self)
        ensures
            options == (EntryOptions { allow_background_distributed_operations: allow, ..self }),
    {
        EntryOptions { allow_background_distributed_operations: allow, ..self }
    }

    /// Suppresses the backplane notification of this operation.
    pub fn with_skip_backplane_notifications(self, skip: bool) -> (options: Self)
        ensures
            options == (EntryOptions { skip_backplane_notifications: skip, ..self }),
    {
        EntryOptions { skip_backplane_notifications: skip, ..self }
    }

    /// Skips the cross-node lock for this operation.
    pub fn with_skip_distributed_locker(self, skip: bool) -> (options: Self)
        ensures
            options == (EntryOptions { skip_distributed_locker: skip, ..self }),
    {
        EntryOptions { skip_distributed_locker: skip, ..self }
    }

    /// Asks for values to be cloned out on read.
    pub fn with_enable_auto_clone(self, enable: bool) -> (options: Self)
        ensures
            options == (EntryOptions { enable_auto_clone: enable, ..self }),
    {
        EntryOptions { enable_auto_clone: enable, ..self }
    }

    /// The logical duration: how long a value stays fresh.
    pub fn duration(&self) -> (value: Duration)
        ensures
            value == self.duration,
    {
        self.duration
    }

    /// Whether a stale value may stand in for a failing factory.
    pub fn is_fail_safe_enabled(&self) -> (value: bool)
        ensures
            value == self.is_fail_safe_enabled,
    {
        self.is_fail_safe_enabled
    }

    /// How long a fallback is served before the factory is tried again.
    pub fn fail_safe_throttle_duration(&self) -> (value: Duration)
        ensures
            value == self.fail_safe_throttle_duration,
    {
        self.fail_safe_throttle_duration
    }

    /// When to refresh proactively, as a share of the freshness window.
    pub fn eager_refresh_threshold(&self) -> (value: Option<EagerThreshold>)
        ensures
            value == self.eager_refresh_threshold,
    {
        self.eager_refresh_threshold
    }

    /// The general wait for a single-flight lock.
    pub fn lock_timeout(&self) -> (value: Timeout)
        ensures
            value == self.lock_timeout,
    {
        self.lock_timeout
    }

    /// Whether a timed-out factory may finish in the background.
    pub fn allow_timed_out_factory_background_completion(&self) -> (value: bool)
        ensures
            value == self.allow_timed_out_factory_background_completion,
    {
        self.allow_timed_out_factory_background_completion
    }

    /// Whether memory reads are skipped.
    pub fn skip_memory_read(&self) -> (value: bool)
        ensures
            value == self.skip_memory_read,
    {
        self.skip_memory_read
    }

    /// Whether memory writes are skipped.
    pub fn skip_memory_write(&self) -> (value: bool)
        ensures
            value == self.skip_memory_write,
    {
        self.skip_memory_write
    }

    /// Whether read-only lookups may return a stale value.
    pub fn allow_stale_on_read_only(&self) -> (value: bool)
        ensures
            value == self.allow_stale_on_read_only,
    {
        self.allow_stale_on_read_only
    }

    /// The eviction priority hint.
    pub fn priority(&self) -> (value: Priority)
        ensures
            value == self.priority,
    {
        self.priority
    }

    /// Whether backplane notifications are suppressed.
    pub fn skip_backplane_notifications(&self) -> (value: bool)
        ensures
            value == self.skip_backplane_notifications,
    {
        self.skip_backplane_notifications
    }

    /// Whether a publish may run in the background.
    pub fn allow_background_backplane_operations(&self) -> (value: bool)
        ensures
            value == self.allow_background_backplane_operations,
    {
        self.allow_background_backplane_operations
    }

    /// Whether distributed reads are skipped.
    pub fn skip_distributed_read(&self) -> (value: bool)
        ensures
            value == self.skip_distributed_read,
    {
        self.skip_distributed_read
    }

    /// Whether distributed reads are skipped when memory holds a stale value.
    pub fn skip_distributed_read_when_stale(&self) -> (value: bool)
        ensures
            value == self.skip_distributed_read_when_stale,
    {
        self.skip_distributed_read_when_stale
    }

    /// Whether the cross-node lock is skipped.
    pub fn skip_distributed_locker(&self) -> (value: bool)
        ensures
            value == self.skip_distributed_locker,
    {
        self.skip_distributed_locker
    }

    /// Whether values are cloned out on read.
    pub fn enable_auto_clone(&self) -> (value: bool)
        ensures
            value == self.enable_auto_clone,
    {
        self.enable_auto_clone
    }

    /// The distributed read's wait when there is something to fall back to.
    pub fn distributed_soft_timeout(&self) -> (value: Timeout)
        ensures
            value == self.distributed_soft_timeout,
    {
        self.distributed_soft_timeout
    }

    /// The distributed read's wait in any case.
    pub fn distributed_hard_timeout(&self) -> (value: Timeout)
        ensures
            value == self.distributed_hard_timeout,
    {
        self.distributed_hard_timeout
    }

    /// Whether distributed writes are skipped.
    pub fn skip_distributed_write(&self) -> (value: bool)
        ensures
            value == self.skip_distributed_write,
    {
        self.skip_distributed_write
    }

    /// Whether distributed writes may run in the background.
    pub fn allow_background_distributed_operations(&self) -> (value: bool)
        ensures
            value == self.allow_background_distributed_operations,
    {
        self.allow_background_distributed_operations
    }

    /// Whether backend errors reach the caller.
    pub fn rethrow_distributed_exceptions(&self) -> (value: bool)
        ensures
            value == self.rethrow_distributed_exceptions,
    {
        self.rethrow_distributed_exceptions
    }

    /// Whether (de)serialization errors reach the caller.
    pub fn rethrow_serialization_exceptions(&self) -> (value: bool)
        ensures
            value == self.rethrow_serialization_exceptions,
    {
        self.rethrow_serialization_exceptions
    }

    /// Whether backplane errors reach the caller.
    pub fn rethrow_backplane_exceptions(&self) -> (value: bool)
        ensures
            value == self.rethrow_backplane_exceptions,
    {
        self.rethrow_backplane_exceptions
    }

    /// The wait for the in-process lock: its own, or else the general one.
    pub fn memory_lock_timeout(&self) -> (value: Timeout)
        ensures
            value == (match self.memory_lock_timeout {
                Some(v) => v,
                None => self.lock_timeout,
            }),
    {
        self.memory_lock_timeout.unwrap_or(self.lock_timeout)
    }

    /// The wait for the cross-node lock: its own, or else the general one.
    pub fn distributed_lock_timeout(&self) -> (value: Timeout)
        ensures
            value == (match self.distributed_lock_timeout {
                Some(v) => v,
                None => self.lock_timeout,
            }),
    {
        self.distributed_lock_timeout.unwrap_or(self.lock_timeout)
    }

    /// The freshness window in the memory store.
    pub open spec fn memory_window(&self) -> Duration {
        match self.memory_duration {
            Some(d) => d,
            None => self.duration,
        }
    }

    /// The freshness window in the distributed cache.
    pub open spec fn distributed_window(&self) -> Duration {
        match self.distributed_duration {
            Some(d) => d,
            None => self.duration,
        }
    }

    /// How long a value stays usable as a fallback in the distributed cache.
    pub open spec fn distributed_fallback_window(&self) -> Duration {
        match self.distributed_fail_safe_max_duration {
            Some(d) => d,
            None => self.fail_safe_max_duration,
        }
    }

    /// How long the memory store keeps an entry.
    pub open spec fn memory_lifetime(&self) -> Duration {
        if self.is_fail_safe_enabled {
            longer(self.memory_window(), self.fail_safe_max_duration)
        } else {
            self.memory_window()
        }
    }

    /// How long the distributed cache keeps an entry.
    pub open spec fn distributed_lifetime(&self) -> Duration {
        if self.is_fail_safe_enabled {
            longer(self.distributed_window(), self.distributed_fallback_window())
        } else {
            self.distributed_window()
        }
    }

    /// The wait that a soft and a hard timeout come to: the soft one counts only with
    /// fail-safe on and something to fall back to, and the shorter one wins.
    pub open spec fn effective_timeout(
        &self,
        soft: Timeout,
        hard: Timeout,
        has_fallback: bool,
    ) -> Timeout {
        if self.is_fail_safe_enabled && has_fallback {
            sooner(soft, hard)
        } else {
            hard
        }
    }

    /// The freshness window in the memory store: its own, or else the general one.
    pub fn resolved_memory_duration(&self) -> (value: Duration)
        ensures
            value == self.memory_window(),
    {
        self.memory_duration.unwrap_or(self.duration)
    }

    /// The freshness window in the distributed cache: its own, or else the general one.
    pub fn resolved_distributed_duration(&self) -> (value: Duration)
        ensures
            value == self.distributed_window(),
    {
        self.distributed_duration.unwrap_or(self.duration)
    }

    /// The fallback window in the distributed cache: its own, or else the general one.
    pub fn resolved_distributed_fail_safe_max_duration(&self) -> (value: Duration)
        ensures
            value == self.distributed_fallback_window(),
    {
        self.distributed_fail_safe_max_duration.unwrap_or(self.fail_safe_max_duration)
    }

    /// How long the memory store keeps an entry: with fail-safe the longer of the
    /// freshness and the fallback window (not their sum), without it just the
    /// freshness window.
    pub fn physical_ttl(&self) -> (ttl: Duration)
        ensures
            ttl == self.memory_lifetime(),
    {
        let logical = self.resolved_memory_duration();
        if self.is_fail_safe_enabled {
            logical.max(self.fail_safe_max_duration)
        } else {
            logical
        }
    }

    /// How long the distributed cache keeps an entry, by the same rule.
    pub fn distributed_physical_ttl(&self) -> (ttl: Duration)
        ensures
            ttl == self.distributed_lifetime(),
    {
        let logical = self.resolved_distributed_duration();
        if self.is_fail_safe_enabled {
            logical.max(self.resolved_distributed_fail_safe_max_duration())
        } else {
            logical
        }
    }

    /// The factory timeout to enforce, given whether there is something to fall back to.
    pub fn appropriate_factory_timeout(&self, has_fallback: bool) -> (timeout: Timeout)
        ensures
            timeout == self.effective_timeout(
                self.factory_soft_timeout,
                self.factory_hard_timeout,
                has_fallback,
            ),
    {
        let mut selected = Timeout::Infinite;
        let soft = self.factory_soft_timeout;
        if self.is_fail_safe_enabled && has_fallback && !soft.is_infinite() {
            selected = soft;
        }
        selected.min(self.factory_hard_timeout)
    }

    /// The timeout to enforce on a distributed read, given whether there is something
    /// to fall back to.
    pub fn appropriate_distributed_timeout(&self, has_fallback: bool) -> (timeout: Timeout)
        ensures
            timeout == self.effective_timeout(
                self.distributed_soft_timeout,
                self.distributed_hard_timeout,
                has_fallback,
            ),
    {
        let mut selected = Timeout::Infinite;
        let soft = self.distributed_soft_timeout;
        if self.is_fail_safe_enabled && has_fallback && !soft.is_infinite() {
            selected = soft;
        }
        selected.min(self.distributed_hard_timeout)
    }

    /// Where a fresh entry's freshness ends, put off by `extra_ticks`.
    pub open spec fn expires_with(&self, created: Timestamp, extra_ticks: i64) -> Timestamp {
        later_by(later_by(created, self.memory_window()), span_of(extra_ticks))
    }

    /// Whether `extra` is what puts a fresh entry's expiration off: a draw of at most the
    /// maximum jitter, and nothing where there is none.
    pub open spec fn puts_off_by(&self, extra: i64) -> bool {
        &&& 0 <= extra <= ticks_of(self.jitter_max)
        &&& ticks_of(self.jitter_max) > 0 ==> is_drawn_up_to(ticks_of(self.jitter_max), extra)
    }

    /// Whether `at` is an instant at which a fresh entry's freshness may end.
    pub open spec fn may_expire_at(&self, created: Timestamp, at: Timestamp) -> bool {
        exists|extra: i64|
            self.puts_off_by(extra) && #[trigger] self.expires_with(created, extra) == at
    }

    /// Where the freshness of an entry created at `created` ends when it is put off by
    /// `extra_ticks`.
    pub fn logical_expiration_after(&self, created: Timestamp, extra_ticks: i64) -> (at: Timestamp)
        ensures
            at == self.expires_with(created, extra_ticks),
    {
        created.saturating_add(self.resolved_memory_duration()).saturating_add(
            ticks_to_duration(extra_ticks),
        )
    }

    /// Where the freshness of an entry created at `created` ends, put off by a random
    /// span of at most `jitter_max`.
    pub fn logical_expiration(&self, created: Timestamp) -> (at: Timestamp)
        ensures
            self.may_expire_at(created, at),
            self.jitter_max.nanos == 0 ==> at == later_by(created, self.memory_window()),
    {
        let max_ticks: i64 = duration_to_ticks(self.jitter_max);
        let extra: i64 = if max_ticks > 0 {
            random_ticks(max_ticks)
        } else {
            0
        };
        self.logical_expiration_after(created, extra)
    }

    /// When to start refreshing an entry created at `created`, if eager refresh is
    /// enabled. `share` is the part of the freshness window that the threshold makes.
    pub fn eager_refresh_at(&self, created: Timestamp, share: Duration) -> (at: Option<Timestamp>)
        ensures
            at == (match self.eager_refresh_threshold {
                Some(_) => Some(later_by(created, share)),
                None => None,
            }),
    {
        match self.eager_refresh_threshold {
            Some(_) => Some(created.saturating_add(share)),
            None => None,
        }
    }
}

/// `fastrand::i64` on an inclusive range that starts at nought: a number in the range.
/// Which one is left to chance.
#[verifier::external_body]
fn random_ticks(max: i64) -> (ticks: i64)
    requires
        0 <= max,
    ensures
        0 <= ticks <= max,
{
    fastrand::i64(0..=max)
}

/// Whether `ticks` is what a random draw of at most `max` gave.
pub closed spec fn is_drawn_up_to(max: i64, ticks: i64) -> bool {
    call_ensures(random_ticks, (max,), ticks)
}

/// An entry is kept for the longer of its freshness and its fallback window, never
/// for their sum, and without fail-safe not beyond its freshness.
pub proof fn law_lifetime_is_the_longer_window(options: EntryOptions)
    ensures
        options.is_fail_safe_enabled ==> {
            ||| options.memory_lifetime() == options.memory_window()
            ||| options.memory_lifetime() == options.fail_safe_max_duration
        },
        options.is_fail_safe_enabled ==> options.memory_lifetime().nanos
            >= options.fail_safe_max_duration.nanos,
        options.memory_lifetime().nanos >= options.memory_window().nanos,
        !options.is_fail_safe_enabled ==> options.memory_lifetime() == options.memory_window(),
{
}

/// The soft timeout has no say without fail-safe or without something to fall back
/// to, and a hard timeout is never exceeded.
pub proof fn law_hard_timeout_bounds_the_wait(
    options: EntryOptions,
    soft: Timeout,
    hard: Timeout,
    has_fallback: bool,
)
    ensures
        !options.is_fail_safe_enabled || !has_fallback ==> options.effective_timeout(
            soft,
            hard,
            has_fallback,
        ) == hard,
        hard matches Timeout::After(h) ==> options.effective_timeout(
            soft,
            hard,
            has_fallback,
        ) matches Timeout::After(t) && t.nanos <= h.nanos,
{
}

/// Jitter never shortens the freshness of an entry, and never puts its end off by
/// more than `jitter_max`.
pub proof fn law_jitter_stays_in_bounds(options: EntryOptions, created: Timestamp, at: Timestamp)
    requires
        options.may_expire_at(created, at),
    ensures
        later_by(created, options.memory_window()).0 <= at.0,
        at.0 <= later_by(later_by(created, options.memory_window()), options.jitter_max).0,
{
}

/// With fail-safe on and something to fall back to, the wait that a soft and a hard timeout
/// come to is one of them, and never exceeds either.
pub proof fn law_soft_timeout_bounds_the_wait(
    options: EntryOptions,
    soft: Timeout,
    hard: Timeout,
)
    requires
        options.is_fail_safe_enabled,
    ensures
        ({
            let wait = options.effective_timeout(soft, hard, true);
            &&& wait == soft || wait == hard
            &&& soft matches Timeout::After(s) ==> (wait matches Timeout::After(t) && t.nanos
                <= s.nanos)
            &&& hard matches Timeout::After(h) ==> (wait matches Timeout::After(t) && t.nanos
                <= h.nanos)
        }),
{
}

/// How long a factory and a distributed read are waited for: with fail-safe on and something to
/// fall back to, at most their soft and at most their hard timeout, and no less than the shorter
/// of the two; otherwise the hard timeout alone.
pub proof fn law_waits_are_cut_short_only_for_a_fallback(
    options: EntryOptions,
    has_fallback: bool,
    factory: Timeout,
    distributed: Timeout,
)
    requires
        call_ensures(EntryOptions::appropriate_factory_timeout, (&options, has_fallback), factory),
        call_ensures(
            EntryOptions::appropriate_distributed_timeout,
            (&options, has_fallback),
            distributed,
        ),
    ensures
        !(options.is_fail_safe_enabled && has_fallback) ==> {
            &&& factory == options.factory_hard_timeout
            &&& distributed == options.distributed_hard_timeout
        },
        options.is_fail_safe_enabled && has_fallback ==> {
            &&& factory == options.factory_soft_timeout || factory == options.factory_hard_timeout
            &&& distributed == options.distributed_soft_timeout || distributed
                == options.distributed_hard_timeout
            &&& options.factory_soft_timeout matches Timeout::After(s) ==> (
            factory matches Timeout::After(t) && t.nanos <= s.nanos)
            &&& options.distributed_soft_timeout matches Timeout::After(s) ==> (
            distributed matches Timeout::After(t) && t.nanos <= s.nanos)
        },
        options.factory_hard_timeout matches Timeout::After(h) ==> (
        factory matches Timeout::After(t) && t.nanos <= h.nanos),
        options.distributed_hard_timeout matches Timeout::After(h) ==> (
        distributed matches Timeout::After(t) && t.nanos <= h.nanos),
{
}

/// A setting of its own level wins over the general one, and the general one counts where there
/// is none.
pub proof fn law_own_setting_wins(options: EntryOptions, span: Duration, wait: Timeout)
    ensures
        call_ensures(EntryOptions::resolved_memory_duration, (&options,), span) ==> {
            &&& options.memory_duration matches Some(own) ==> span == own
            &&& options.memory_duration is None ==> span == options.duration
        },
        call_ensures(EntryOptions::resolved_distributed_duration, (&options,), span) ==> {
            &&& options.distributed_duration matches Some(own) ==> span == own
            &&& options.distributed_duration is None ==> span == options.duration
        },
        call_ensures(
            EntryOptions::resolved_distributed_fail_safe_max_duration,
            (&options,),
            span,
        ) ==> {
            &&& options.distributed_fail_safe_max_duration matches Some(own) ==> span == own
            &&& options.distributed_fail_safe_max_duration is None ==> span
                == options.fail_safe_max_duration
        },
        call_ensures(EntryOptions::memory_lock_timeout, (&options,), wait) ==> {
            &&& options.memory_lock_timeout matches Some(own) ==> wait == own
            &&& options.memory_lock_timeout is None ==> wait == options.lock_timeout
        },
        call_ensures(EntryOptions::distributed_lock_timeout, (&options,), wait) ==> {
            &&& options.distributed_lock_timeout matches Some(own) ==> wait == own
            &&& options.distributed_lock_timeout is None ==> wait == options.lock_timeout
        },
{
}

/// How long an entry is kept, in memory and in the distributed cache: at least as long as it is
/// fresh there; with fail-safe also for its whole fallback window there, and no longer than the
/// longer of the two; without fail-safe no longer than it is fresh.
pub proof fn law_entries_are_kept_as_long_as_they_are_of_use(
    options: EntryOptions,
    memory_window: Duration,
    memory_kept: Duration,
    distributed_window: Duration,
    distributed_fallback: Duration,
    distributed_kept: Duration,
)
    requires
        call_ensures(EntryOptions::resolved_memory_duration, (&options,), memory_window),
        call_ensures(EntryOptions::physical_ttl, (&options,), memory_kept),
        call_ensures(EntryOptions::resolved_distributed_duration, (&options,), distributed_window),
        call_ensures(
            EntryOptions::resolved_distributed_fail_safe_max_duration,
            (&options,),
            distributed_fallback,
        ),
        call_ensures(EntryOptions::distributed_physical_ttl, (&options,), distributed_kept),
    ensures
        memory_kept.nanos >= memory_window.nanos,
        distributed_kept.nanos >= distributed_window.nanos,
        !options.is_fail_safe_enabled ==> {
            &&& memory_kept == memory_window
            &&& distributed_kept == distributed_window
        },
        options.is_fail_safe_enabled ==> {
            &&& memory_kept.nanos >= options.fail_safe_max_duration.nanos
            &&& memory_kept == memory_window || memory_kept == options.fail_safe_max_duration
            &&& distributed_kept.nanos >= distributed_fallback.nanos
            &&& distributed_kept == distributed_window || distributed_kept == distributed_fallback
        },
{
}

/// A fresh entry stays fresh for its whole window and for at most the jitter beyond it, in whole
/// ticks; and a proactive refresh is due the given share after the creation, if at all. The
/// spans are such that their ticks can be counted.
pub proof fn law_freshness_lasts_the_window(
    options: EntryOptions,
    created: Timestamp,
    window: Duration,
    at: Timestamp,
    share: Duration,
    refresh: Option<Timestamp>,
)
    requires
        call_ensures(EntryOptions::resolved_memory_duration, (&options,), window),
        window.nanos as int / 100 <= i64::MAX,
        share.nanos as int / 100 <= i64::MAX,
    ensures
        call_ensures(EntryOptions::logical_expiration, (&options, created), at) ==> {
            &&& at.0 >= created.0 + window.nanos as int / 100 || at.0 == i64::MAX
            &&& at.0 <= created.0 + window.nanos as int / 100 + options.jitter_max.nanos as int
                / 100
            &&& options.jitter_max.nanos == 0 && created.0 + window.nanos as int / 100 <= i64::MAX
                ==> at.0 == created.0 + window.nanos as int / 100
        },
        call_ensures(EntryOptions::eager_refresh_at, (&options, created, share), refresh) ==> {
            &&& refresh is Some == options.eager_refresh_threshold is Some
            &&& refresh matches Some(due) ==> (due.0 == created.0 + share.nanos as int / 100 || (
            due.0 == i64::MAX && created.0 + share.nanos as int / 100 > i64::MAX))
        },
{
}

/// What is set is what is found set.
pub proof fn law_setters_set_what_they_name(
    o: EntryOptions,
    span: Duration,
    wait: Timeout,
    hard: Timeout,
    flag: bool,
    other: bool,
    threshold: Option<EagerThreshold>,
    made: EntryOptions,
)
    ensures
        call_ensures(EntryOptions::with_duration, (o, span), made)
            ==> made.duration == span,
        call_ensures(EntryOptions::with_memory_duration, (o, span), made)
            ==> made.memory_duration == Some(span),
        call_ensures(EntryOptions::with_distributed_duration, (o, span), made)
            ==> made.distributed_duration == Some(span),
        call_ensures(EntryOptions::with_jitter_max, (o, span), made)
            ==> made.jitter_max == span,
        call_ensures(EntryOptions::with_lock_timeout, (o, wait), made)
            ==> made.lock_timeout == wait,
        call_ensures(EntryOptions::with_memory_lock_timeout, (o, wait), made)
            ==> made.memory_lock_timeout == Some(wait),
        call_ensures(EntryOptions::with_distributed_lock_timeout, (o, wait), made)
            ==> made.distributed_lock_timeout == Some(wait),
        call_ensures(EntryOptions::with_distributed_timeouts, (o, wait, hard), made) ==> {
            &&& made.distributed_soft_timeout == wait
            &&& made.distributed_hard_timeout == hard
        },
        call_ensures(EntryOptions::with_factory_timeouts, (o, wait, hard, flag), made) ==> {
            &&& made.factory_soft_timeout == wait
            &&& made.factory_hard_timeout == hard
            &&& made.allow_timed_out_factory_background_completion == flag
        },
        call_ensures(EntryOptions::with_skip_memory, (o, flag, other), made) ==> {
            &&& made.skip_memory_read == flag
            &&& made.skip_memory_write == other
        },
        call_ensures(EntryOptions::with_skip_distributed, (o, flag, other), made) ==> {
            &&& made.skip_distributed_read == flag
            &&& made.skip_distributed_write == other
        },
        call_ensures(EntryOptions::with_skip_distributed_read_when_stale, (o, flag), made)
            ==> made.skip_distributed_read_when_stale == flag,
        call_ensures(EntryOptions::with_skip_backplane_notifications, (o, flag), made)
            ==> made.skip_backplane_notifications == flag,
        call_ensures(EntryOptions::with_skip_distributed_locker, (o, flag), made)
            ==> made.skip_distributed_locker == flag,
        call_ensures(EntryOptions::with_allow_stale_on_read_only, (o, flag), made)
            ==> made.allow_stale_on_read_only == flag,
        call_ensures(EntryOptions::with_allow_background_distributed_operations, (o, flag), made)
            ==> made.allow_background_distributed_operations == flag,
        call_ensures(EntryOptions::with_enable_auto_clone, (o, flag), made)
            ==> made.enable_auto_clone == flag,
        call_ensures(EntryOptions::with_eager_refresh, (o, threshold), made)
            ==> made.eager_refresh_threshold == threshold,
{
}

/// Turning fail-safe on or off keeps the windows that are not given, and nothing else changes.
pub proof fn law_fail_safe_keeps_windows_not_given(
    o: EntryOptions,
    enabled: bool,
    max: Option<Duration>,
    throttle: Option<Duration>,
    made: EntryOptions,
)
    requires
        call_ensures(EntryOptions::with_fail_safe, (o, enabled, max, throttle), made),
    ensures
        made.is_fail_safe_enabled == enabled,
        max matches Some(d) ==> made.fail_safe_max_duration == d,
        max is None ==> made.fail_safe_max_duration == o.fail_safe_max_duration,
        throttle matches Some(d) ==> made.fail_safe_throttle_duration == d,
        throttle is None ==> made.fail_safe_throttle_duration == o.fail_safe_throttle_duration,
        made == (EntryOptions {
            is_fail_safe_enabled: made.is_fail_safe_enabled,
            fail_safe_max_duration: made.fail_safe_max_duration,
            fail_safe_throttle_duration: made.fail_safe_throttle_duration,
            ..o
        }),
{
}

/// What is not asked for is off: plain options skip nothing, wait for the factory, the
/// distributed cache and the locks without bound, have no fail-safe, no jitter and no eager
/// refresh, and let (de)serialization errors, but no other, reach the caller.
pub proof fn law_plain_options_hold_nothing_back(span: Duration, made: EntryOptions)
    requires
        call_ensures(EntryOptions::new, (span,), made),
    ensures
        made.duration == span,
        made.memory_duration is None && made.distributed_duration is None,
        !made.skip_memory_read && !made.skip_memory_write,
        !made.skip_distributed_read && !made.skip_distributed_write,
        !made.skip_distributed_read_when_stale && !made.skip_distributed_locker,
        !made.skip_backplane_notifications && !made.allow_stale_on_read_only,
        !made.is_fail_safe_enabled,
        made.jitter_max.nanos == 0,
        made.eager_refresh_threshold is None,
        made.lock_timeout is Infinite && made.memory_lock_timeout is None,
        made.distributed_lock_timeout is None,
        made.factory_soft_timeout is Infinite && made.factory_hard_timeout is Infinite,
        made.distributed_soft_timeout is Infinite && made.distributed_hard_timeout is Infinite,
        made.allow_timed_out_factory_background_completion,
        made.allow_background_backplane_operations,
        !made.allow_background_distributed_operations,
        made.rethrow_serialization_exceptions,
        !made.rethrow_distributed_exceptions && !made.rethrow_backplane_exceptions,
{
}

/// A bit pattern makes a threshold exactly if it is that of a fraction strictly between nothing
/// and the whole, and the threshold gives it back.
pub proof fn law_threshold_is_a_fraction(bits: u32, made: Option<EagerThreshold>, back: u32)
    requires
        call_ensures(EagerThreshold::from_bits, (bits,), made),
        made matches Some(threshold) ==> call_ensures(EagerThreshold::bits, (threshold,), back),
    ensures
        made is Some <==> 0 < bits < 0x3f80_0000,
        made is Some ==> back == bits,
{
}

/// What is read off options is what they hold.
pub proof fn law_options_show_what_they_hold(o: EntryOptions, flag: bool, wait: Timeout)
    ensures
        call_ensures(EntryOptions::is_fail_safe_enabled, (&o,), flag) ==> flag
            == o.is_fail_safe_enabled,
        call_ensures(EntryOptions::skip_memory_read, (&o,), flag) ==> flag == o.skip_memory_read,
        call_ensures(EntryOptions::skip_memory_write, (&o,), flag) ==> flag == o.skip_memory_write,
        call_ensures(EntryOptions::skip_distributed_read, (&o,), flag) ==> flag
            == o.skip_distributed_read,
        call_ensures(EntryOptions::skip_distributed_write, (&o,), flag) ==> flag
            == o.skip_distributed_write,
        call_ensures(EntryOptions::skip_distributed_read_when_stale, (&o,), flag) ==> flag
            == o.skip_distributed_read_when_stale,
        call_ensures(EntryOptions::skip_distributed_locker, (&o,), flag) ==> flag
            == o.skip_distributed_locker,
        call_ensures(EntryOptions::skip_backplane_notifications, (&o,), flag) ==> flag
            == o.skip_backplane_notifications,
        call_ensures(EntryOptions::allow_stale_on_read_only, (&o,), flag) ==> flag
            == o.allow_stale_on_read_only,
        call_ensures(EntryOptions::enable_auto_clone, (&o,), flag) ==> flag == o.enable_auto_clone,
        call_ensures(EntryOptions::rethrow_distributed_exceptions, (&o,), flag) ==> flag
            == o.rethrow_distributed_exceptions,
        call_ensures(EntryOptions::rethrow_serialization_exceptions, (&o,), flag) ==> flag
            == o.rethrow_serialization_exceptions,
        call_ensures(EntryOptions::rethrow_backplane_exceptions, (&o,), flag) ==> flag
            == o.rethrow_backplane_exceptions,
        call_ensures(EntryOptions::lock_timeout, (&o,), wait) ==> wait == o.lock_timeout,
        call_ensures(EntryOptions::distributed_soft_timeout, (&o,), wait) ==> wait
            == o.distributed_soft_timeout,
        call_ensures(EntryOptions::distributed_hard_timeout, (&o,), wait) ==> wait
            == o.distributed_hard_timeout,
{
}

} // verus!
