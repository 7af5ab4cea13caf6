//! The vendor port of the bounded backend: the station driver and the native
//! supplicant behind one set of calls.

use crate::hisi_rf_backend::incremental::{
    IncrementalSupplicantBackend, MonotonicClock, PollResult, SupplicantPort,
};
use crate::hisi_rf_backend::{
    convert_scan_result, map_error, map_native_error, not_initialized, NativeEvent,
    NativeSupplicantError, Ws63Error, Ws63ScanResult,
};
use crate::radio::{BackendError, ScanResult, StationConfig};
use vstd::prelude::*;

verus! {

/// The vendor station driver. Nothing is known of what it answers.
pub trait NativeDriver {
    fn begin_scan(&mut self) -> Result<(), Ws63Error>;

    fn poll_scan(&mut self) -> Result<Option<usize>, Ws63Error>;

    fn scan_result(&self, index: usize) -> Option<Ws63ScanResult>;

    fn cancel_scan(&mut self);
}

/// The native supplicant. Nothing is known of what it answers.
pub trait NativeSupplicant {
    fn begin_scan_cache_capture(&mut self) -> Result<(), NativeSupplicantError>;

    fn cancel_scan_cache_capture(&mut self);

    fn scan_cache_capture_pending(&self) -> bool;

    fn configure(&mut self, config: &StationConfig) -> Result<(), NativeSupplicantError>;

    fn connect(&mut self) -> Result<(), NativeSupplicantError>;

    fn disconnect(&mut self) -> Result<(), NativeSupplicantError>;

    fn poll(&mut self, budget: u32) -> Result<PollResult, NativeSupplicantError>;

    fn input_pending(&self) -> bool;

    fn next_event(&mut self) -> Result<Option<NativeEvent>, NativeSupplicantError>;

    fn context_diagnostic_word(&self) -> u32;

    fn match_diagnostic_word(&self) -> u32;

    fn external_auth_retry_stalled(&self) -> bool;
}

/// Diagnostic words that are there before the supplicant is.
pub trait PortWords {
    fn recovery_diagnostic_word(&self) -> u32;

    fn diagnostic_word(&self) -> u32;
}

/// The backend after its bootstrap: a driver, a supplicant, or neither.
pub struct Ws63WifiBackend<D, S, W> {
    pub wifi: Option<D>,
    pub supplicant: Option<S>,
    pub words: W,
    /// The build supports WPA3.
    pub wpa3: bool,
}

/// What the port makes of a supplicant's answer.
pub open spec fn supplicant_answered<T>(answer: Result<T, NativeSupplicantError>) -> Result<
    T,
    BackendError,
> {
    match answer {
        Ok(value) => Ok(value),
        Err(error) => Err(crate::hisi_rf_backend::native_failure(error)),
    }
}

/// What the port makes of a driver's answer.
pub open spec fn driver_answered<T>(answer: Result<T, Ws63Error>) -> Result<T, BackendError> {
    match answer {
        Ok(value) => Ok(value),
        Err(error) => Err(crate::hisi_rf_backend::driver_failure(error)),
    }
}

impl<D, S, W> Ws63WifiBackend<D, S, W> {
    /// The bootstrap has completed.
    pub open spec fn ready(self) -> bool {
        self.wifi is Some && self.supplicant is Some
    }

    /// Bounded operations need a completed bootstrap.
    pub fn ensure_incremental_ready(&self) -> (result: Result<(), BackendError>)
        ensures
            result == (if self.ready() {
                Ok::<(), BackendError>(())
            } else {
                Err(crate::hisi_rf_backend::uninitialized())
            }),
    {
        if self.wifi.is_none() || self.supplicant.is_none() {
            return Err(not_initialized());
        }
        Ok(())
    }
}

impl<D: NativeDriver, S: NativeSupplicant, W: PortWords> Ws63WifiBackend<D, S, W> {
    /// The bounded backend over this port, once the bootstrap has completed.
    pub fn into_incremental<C: MonotonicClock>(self, clock: C) -> (result: Result<
        IncrementalSupplicantBackend<Self, C>,
        BackendError,
    >)
        ensures
            match result {
                Ok(backend) => self.ready() && backend.port == self && backend.clock == clock
                    && backend.core.active is None && backend.core.first_eapol_reconnects == 0
                    && backend.core.external_auth_reconnects == 0,
                Err(error) => !self.ready() && error == crate::hisi_rf_backend::uninitialized(),
            },
    {
        match self.ensure_incremental_ready() {
            Ok(_) => Ok(IncrementalSupplicantBackend::new(self, clock)),
            Err(error) => Err(error),
        }
    }
}

impl<D: NativeDriver, S: NativeSupplicant, W: PortWords> SupplicantPort for Ws63WifiBackend<
    D,
    S,
    W,
> {
    /// Open the cache capture, then start the driver's scan. A capture whose scan
    /// could not be started is cancelled again.
    fn start_scan(&mut self) -> (result: Result<(), BackendError>)
        ensures
            final(self).words == old(self).words && final(self).wpa3 == old(self).wpa3,
            match old(self).supplicant {
                None => *final(self) == *old(self) && result == Err::<(), BackendError>(
                    crate::hisi_rf_backend::uninitialized(),
                ),
                Some(supplicant) => exists|
                    at: &mut S,
                    opened: Result<(), NativeSupplicantError>,
                |
                    {
                        &&& #[trigger] call_ensures(S::begin_scan_cache_capture, (at,), opened)
                        &&& *at == supplicant
                        &&& opened is Err ==> {
                            &&& final(self).wifi == old(self).wifi
                            &&& final(self).supplicant == Some(*final(at))
                            &&& result == supplicant_answered(opened)
                        }
                        &&& opened is Ok && old(self).wifi is None ==> {
                            &&& final(self).wifi is None
                            &&& final(self).supplicant == Some(*final(at))
                            &&& result == Err::<(), BackendError>(
                                crate::hisi_rf_backend::uninitialized(),
                            )
                        }
                        &&& opened is Ok && old(self).wifi is Some ==> exists|
                            scan: &mut D,
                            started: Result<(), Ws63Error>,
                        |
                            {
                                &&& #[trigger] call_ensures(D::begin_scan, (scan,), started)
                                &&& *scan == old(self).wifi->0
                                &&& final(self).wifi == Some(*final(scan))
                                &&& result == driver_answered(started)
                                &&& started is Ok ==> final(self).supplicant == Some(*final(at))
                                &&& started is Err ==> exists|cancel: &mut S|
                                    {
                                        &&& #[trigger] call_ensures(
                                            S::cancel_scan_cache_capture,
                                            (cancel,),
                                            (),
                                        )
                                        &&& *cancel == *final(at)
                                        &&& final(self).supplicant == Some(*final(cancel))
                                    }
                            }
                    },
            },
    {
        match &mut self.supplicant {
            None => Err(not_initialized()),
            Some(supplicant) => match supplicant.begin_scan_cache_capture() {
                Err(error) => Err(map_native_error(error)),
                Ok(_) => match &mut self.wifi {
                    None => Err(not_initialized()),
                    Some(wifi) => match wifi.begin_scan() {
                        Ok(_) => Ok(()),
                        Err(error) => {
                            supplicant.cancel_scan_cache_capture();
                            Err(map_error(error))
                        },
                    },
                },
            },
        }
    }

    fn poll_scan(&mut self) -> (result: Result<Option<usize>, BackendError>)
        ensures
            match old(self).wifi {
                None => *final(self) == *old(self) && result == Err::<Option<usize>, BackendError>(
                    crate::hisi_rf_backend::uninitialized(),
                ),
                Some(driver) => exists|
                    at: &mut D,
                    answer: Result<Option<usize>, Ws63Error>,
                |
                    {
                        &&& #[trigger] call_ensures(D::poll_scan, (at,), answer)
                        &&& *at == driver
                        &&& *final(self) == (Self {
                            wifi: Some(*final(at)),
                            ..*old(self)
                        })
                        &&& result == driver_answered(answer)
                    },
            },
    {
        match &mut self.wifi {
            None => Err(not_initialized()),
            Some(wifi) => match wifi.poll_scan() {
                Ok(total) => Ok(total),
                Err(error) => Err(map_error(error)),
            },
        }
    }

    fn scan_result(&self, index: usize) -> (result: Option<ScanResult>)
        ensures
            match self.wifi {
                None => result is None,
                Some(driver) => exists|found: Option<Ws63ScanResult>|
                    {
                        &&& #[trigger] call_ensures(D::scan_result, (&driver, index), found)
                        &&& result is Some <==> found is Some
                            && crate::hisi_rf_backend::nameable(found->0)
                        &&& result matches Some(public) ==> crate::hisi_rf_backend::converted(
                            public,
                            found->0,
                            self.wpa3,
                        )
                    },
            },
    {
        match &self.wifi {
            None => None,
            Some(wifi) => match wifi.scan_result(index) {
                None => None,
                Some(scan) => convert_scan_result(&scan, self.wpa3),
            },
        }
    }

    fn scan_cache_pending(&self) -> (pending: bool)
        ensures
            match self.supplicant {
                None => !pending,
                Some(supplicant) => call_ensures(S::scan_cache_capture_pending, (&supplicant,), pending),
            },
    {
        match &self.supplicant {
            None => false,
            Some(supplicant) => supplicant.scan_cache_capture_pending(),
        }
    }

    fn cancel_scan(&mut self)
        ensures
            match old(self).wifi {
                None => final(self).wifi is None,
                Some(driver) => exists|at: &mut D|
                    {
                        &&& #[trigger] call_ensures(D::cancel_scan, (at,), ())
                        &&& *at == driver
                        &&& final(self).wifi == Some(*final(at))
                    },
            },
            match old(self).supplicant {
                None => final(self).supplicant is None,
                Some(supplicant) => exists|at: &mut S|
                    {
                        &&& #[trigger] call_ensures(S::cancel_scan_cache_capture, (at,), ())
                        &&& *at == supplicant
                        &&& final(self).supplicant == Some(*final(at))
                    },
            },
            final(self).words == old(self).words && final(self).wpa3 == old(self).wpa3,
    {
        match &mut self.wifi {
            None => {},
            Some(wifi) => wifi.cancel_scan(),
        }
        match &mut self.supplicant {
            None => {},
            Some(supplicant) => supplicant.cancel_scan_cache_capture(),
        }
    }

    fn configure(&mut self, config: &StationConfig) -> (result: Result<(), BackendError>)
        ensures
            match old(self).supplicant {
                None => *final(self) == *old(self) && result == Err::<(), BackendError>(
                    crate::hisi_rf_backend::uninitialized(),
                ),
                Some(supplicant) => exists|
                    at: &mut S,
                    answer: Result<(), NativeSupplicantError>,
                |
                    {
                        &&& #[trigger] call_ensures(S::configure, (at, config), answer)
                        &&& *at == supplicant
                        &&& *final(self) == (Self {
                            supplicant: Some(*final(at)),
                            ..*old(self)
                        })
                        &&& result == supplicant_answered(answer)
                    },
            },
    {
        match &mut self.supplicant {
            None => Err(not_initialized()),
            Some(supplicant) => match supplicant.configure(config) {
                Ok(_) => Ok(()),
                Err(error) => Err(map_native_error(error)),
            },
        }
    }

    fn connect(&mut self) -> (result: Result<(), BackendError>)
        ensures
            match old(self).supplicant {
                None => *final(self) == *old(self) && result == Err::<(), BackendError>(
                    crate::hisi_rf_backend::uninitialized(),
                ),
                Some(supplicant) => exists|
                    at: &mut S,
                    answer: Result<(), NativeSupplicantError>,
                |
                    {
                        &&& #[trigger] call_ensures(S::connect, (at,), answer)
                        &&& *at == supplicant
                        &&& *final(self) == (Self {
                            supplicant: Some(*final(at)),
                            ..*old(self)
                        })
                        &&& result == supplicant_answered(answer)
                    },
            },
    {
        match &mut self.supplicant {
            None => Err(not_initialized()),
            Some(supplicant) => match supplicant.connect() {
                Ok(_) => Ok(()),
                Err(error) => Err(map_native_error(error)),
            },
        }
    }

    fn disconnect(&mut self) -> (result: Result<(), BackendError>)
        ensures
            match old(self).supplicant {
                None => *final(self) == *old(self) && result == Err::<(), BackendError>(
                    crate::hisi_rf_backend::uninitialized(),
                ),
                Some(supplicant) => exists|
                    at: &mut S,
                    answer: Result<(), NativeSupplicantError>,
                |
                    {
                        &&& #[trigger] call_ensures(S::disconnect, (at,), answer)
                        &&& *at == supplicant
                        &&& *final(self) == (Self {
                            supplicant: Some(*final(at)),
                            ..*old(self)
                        })
                        &&& result == supplicant_answered(answer)
                    },
            },
    {
        match &mut self.supplicant {
            None => Err(not_initialized()),
            Some(supplicant) => match supplicant.disconnect() {
                Ok(_) => Ok(()),
                Err(error) => Err(map_native_error(error)),
            },
        }
    }

    fn poll(&mut self, budget: u32) -> (result: Result<PollResult, BackendError>)
        ensures
            match old(self).supplicant {
                None => *final(self) == *old(self) && result == Err::<PollResult, BackendError>(
                    crate::hisi_rf_backend::uninitialized(),
                ),
                Some(supplicant) => exists|
                    at: &mut S,
                    answer: Result<PollResult, NativeSupplicantError>,
                |
                    {
                        &&& #[trigger] call_ensures(S::poll, (at, budget), answer)
                        &&& *at == supplicant
                        &&& *final(self) == (Self {
                            supplicant: Some(*final(at)),
                            ..*old(self)
                        })
                        &&& result == supplicant_answered(answer)
                    },
            },
    {
        match &mut self.supplicant {
            None => Err(not_initialized()),
            Some(supplicant) => match supplicant.poll(budget) {
                Ok(polled) => Ok(polled),
                Err(error) => Err(map_native_error(error)),
            },
        }
    }

    fn input_pending(&self) -> (pending: bool)
        ensures
            match self.supplicant {
                None => !pending,
                Some(supplicant) => call_ensures(S::input_pending, (&supplicant,), pending),
            },
    {
        match &self.supplicant {
            None => false,
            Some(supplicant) => supplicant.input_pending(),
        }
    }

    fn next_event(&mut self) -> (result: Result<Option<NativeEvent>, BackendError>)
        ensures
            match old(self).supplicant {
                None => *final(self) == *old(self) && result == Err::<Option<NativeEvent>, BackendError>(
                    crate::hisi_rf_backend::uninitialized(),
                ),
                Some(supplicant) => exists|
                    at: &mut S,
                    answer: Result<Option<NativeEvent>, NativeSupplicantError>,
                |
                    {
                        &&& #[trigger] call_ensures(S::next_event, (at,), answer)
                        &&& *at == supplicant
                        &&& *final(self) == (Self {
                            supplicant: Some(*final(at)),
                            ..*old(self)
                        })
                        &&& result == supplicant_answered(answer)
                    },
            },
    {
        match &mut self.supplicant {
            None => Err(not_initialized()),
            Some(supplicant) => match supplicant.next_event() {
                Ok(event) => Ok(event),
                Err(error) => Err(map_native_error(error)),
            },
        }
    }

    fn recovery_diagnostic_word(&self) -> (word: u32)
        ensures
            call_ensures(W::recovery_diagnostic_word, (&self.words,), word),
    {
        self.words.recovery_diagnostic_word()
    }

    fn context_diagnostic_word(&self) -> (word: u32)
        ensures
            match self.supplicant {
                None => word == 0,
                Some(supplicant) => call_ensures(S::context_diagnostic_word, (&supplicant,), word),
            },
    {
        match &self.supplicant {
            None => 0,
            Some(supplicant) => supplicant.context_diagnostic_word(),
        }
    }

    fn driver_diagnostic_word(&self) -> (word: u32)
        ensures
            call_ensures(W::diagnostic_word, (&self.words,), word),
    {
        self.words.diagnostic_word()
    }

    fn match_diagnostic_word(&self) -> (word: u32)
        ensures
            match self.supplicant {
                None => word == 0,
                Some(supplicant) => call_ensures(S::match_diagnostic_word, (&supplicant,), word),
            },
    {
        match &self.supplicant {
            None => 0,
            Some(supplicant) => supplicant.match_diagnostic_word(),
        }
    }

    fn external_auth_retry_stalled(&self) -> (stalled: bool)
        ensures
            match self.supplicant {
                None => !stalled,
                Some(supplicant) => call_ensures(S::external_auth_retry_stalled, (&supplicant,), stalled),
            },
    {
        match &self.supplicant {
            None => false,
            Some(supplicant) => supplicant.external_auth_retry_stalled(),
        }
    }
}

/// An answer of the driver or of the supplicant is a success exactly when the port's is,
/// with the same value, and a failure is told as the mapping of that failure tells it.
pub proof fn law_port_passes_answers_on<T>(
    supplicant: Result<T, NativeSupplicantError>,
    driver: Result<T, Ws63Error>,
    refused: NativeSupplicantError,
    failed: Ws63Error,
    refused_told: BackendError,
    failed_told: BackendError,
)
    requires
        call_ensures(map_native_error, (refused,), refused_told),
        call_ensures(map_error, (failed,), failed_told),
    ensures
        supplicant_answered(supplicant) is Ok <==> supplicant is Ok,
        driver_answered(driver) is Ok <==> driver is Ok,
        supplicant matches Ok(value) ==> supplicant_answered(supplicant)->Ok_0 == value,
        driver matches Ok(value) ==> driver_answered(driver)->Ok_0 == value,
        supplicant_answered(Err::<T, NativeSupplicantError>(refused)) == Err::<T, BackendError>(
            refused_told,
        ),
        driver_answered(Err::<T, Ws63Error>(failed)) == Err::<T, BackendError>(failed_told),
{
}

/// Bounded operations are there exactly once both the driver and the supplicant are.
pub proof fn law_port_needs_both_halves<D, S, W>(
    backend: Ws63WifiBackend<D, S, W>,
    result: Result<(), BackendError>,
)
    requires
        call_ensures(Ws63WifiBackend::<D, S, W>::ensure_incremental_ready, (&backend,), result),
    ensures
        result is Ok <==> backend.wifi is Some && backend.supplicant is Some,
        result matches Err(error) ==> error == crate::hisi_rf_backend::uninitialized(),
{
}

/// A submission goes to the supplicant under the name that it was asked for, as it was
/// asked for, and its answer comes back. Without a supplicant nothing is submitted.
pub proof fn law_port_submits_what_it_is_asked<
    D: NativeDriver,
    S: NativeSupplicant,
    W: PortWords,
>(config: &StationConfig, budget: u32)
    ensures
        forall|port: &mut Ws63WifiBackend<D, S, W>, result: Result<(), BackendError>| #[trigger]
            call_ensures(Ws63WifiBackend::<D, S, W>::connect, (port,), result) ==> {
                &&& (*port).supplicant is None ==> result is Err && *final(port) == *port
                &&& (*port).supplicant is Some ==> exists|
                    at: &mut S,
                    answer: Result<(), NativeSupplicantError>,
                | #[trigger]
                    call_ensures(S::connect, (at,), answer) && *at == (*port).supplicant->0
                        && (*final(port)).supplicant == Some(*final(at)) && (result is Ok
                        <==> answer is Ok) && (answer is Ok ==> result->Ok_0 == answer->Ok_0)
                &&& (*final(port)).wifi == (*port).wifi
            },
        forall|port: &mut Ws63WifiBackend<D, S, W>, result: Result<(), BackendError>| #[trigger]
            call_ensures(Ws63WifiBackend::<D, S, W>::disconnect, (port,), result) ==> {
                &&& (*port).supplicant is None ==> result is Err && *final(port) == *port
                &&& (*port).supplicant is Some ==> exists|
                    at: &mut S,
                    answer: Result<(), NativeSupplicantError>,
                | #[trigger]
                    call_ensures(S::disconnect, (at,), answer) && *at == (*port).supplicant->0
                        && (*final(port)).supplicant == Some(*final(at)) && (result is Ok
                        <==> answer is Ok) && (answer is Ok ==> result->Ok_0 == answer->Ok_0)
                &&& (*final(port)).wifi == (*port).wifi
            },
        forall|port: &mut Ws63WifiBackend<D, S, W>, result: Result<(), BackendError>| #[trigger]
            call_ensures(Ws63WifiBackend::<D, S, W>::configure, (port, config), result) ==> {
                &&& (*port).supplicant is None ==> result is Err && *final(port) == *port
                &&& (*port).supplicant is Some ==> exists|
                    at: &mut S,
                    answer: Result<(), NativeSupplicantError>,
                | #[trigger]
                    call_ensures(S::configure, (at, config), answer) && *at == (*port).supplicant->0
                        && (*final(port)).supplicant == Some(*final(at)) && (result is Ok
                        <==> answer is Ok) && (answer is Ok ==> result->Ok_0 == answer->Ok_0)
                &&& (*final(port)).wifi == (*port).wifi
            },
        forall|port: &mut Ws63WifiBackend<D, S, W>, result: Result<PollResult, BackendError>| #[trigger]
            call_ensures(Ws63WifiBackend::<D, S, W>::poll, (port, budget), result) ==> {
                &&& (*port).supplicant is None ==> result is Err && *final(port) == *port
                &&& (*port).supplicant is Some ==> exists|
                    at: &mut S,
                    answer: Result<PollResult, NativeSupplicantError>,
                | #[trigger]
                    call_ensures(S::poll, (at, budget), answer) && *at == (*port).supplicant->0
                        && (*final(port)).supplicant == Some(*final(at)) && (result is Ok
                        <==> answer is Ok) && (answer is Ok ==> result->Ok_0 == answer->Ok_0)
                &&& (*final(port)).wifi == (*port).wifi
            },
        forall|port: &mut Ws63WifiBackend<D, S, W>, result: Result<Option<NativeEvent>, BackendError>| #[trigger]
            call_ensures(Ws63WifiBackend::<D, S, W>::next_event, (port,), result) ==> {
                &&& (*port).supplicant is None ==> result is Err && *final(port) == *port
                &&& (*port).supplicant is Some ==> exists|
                    at: &mut S,
                    answer: Result<Option<NativeEvent>, NativeSupplicantError>,
                | #[trigger]
                    call_ensures(S::next_event, (at,), answer) && *at == (*port).supplicant->0
                        && (*final(port)).supplicant == Some(*final(at)) && (result is Ok
                        <==> answer is Ok) && (answer is Ok ==> result->Ok_0 == answer->Ok_0)
                &&& (*final(port)).wifi == (*port).wifi
            },
{
}

/// A scan opens the capture of its cache first, and then starts the driver's scan; where
/// that fails, the capture is cancelled again. It has started exactly when both did.
pub proof fn law_port_captures_before_it_scans<
    D: NativeDriver,
    S: NativeSupplicant,
    W: PortWords,
>()
    ensures
        forall|port: &mut Ws63WifiBackend<D, S, W>, result: Result<(), BackendError>| #[trigger]
            call_ensures(Ws63WifiBackend::<D, S, W>::start_scan, (port,), result) ==> {
                &&& result is Ok ==> (*port).supplicant is Some && (*port).wifi is Some && exists|
                    at: &mut S,
                    scan: &mut D,
                | #[trigger]
                    call_ensures(S::begin_scan_cache_capture, (at,), Ok(())) && #[trigger]
                        call_ensures(D::begin_scan, (scan,), Ok(())) && *at
                        == (*port).supplicant->0 && *scan == (*port).wifi->0
                        && (*final(port)).supplicant == Some(*final(at)) && (*final(port)).wifi
                        == Some(*final(scan))
                &&& (*port).supplicant is None ==> result is Err && *final(port) == *port
                &&& (*port).wifi is None ==> result is Err
            },
        forall|port: &mut Ws63WifiBackend<D, S, W>, result: Result<Option<usize>, BackendError>|
            #[trigger]
            call_ensures(Ws63WifiBackend::<D, S, W>::poll_scan, (port,), result) ==> {
                &&& (*port).wifi is None ==> result is Err && *final(port) == *port
                &&& (*port).wifi is Some ==> exists|
                    at: &mut D,
                    answer: Result<Option<usize>, Ws63Error>,
                | #[trigger]
                    call_ensures(D::poll_scan, (at,), answer) && *at == (*port).wifi->0 && (
                    result is Ok <==> answer is Ok) && (answer is Ok ==> result->Ok_0
                        == answer->Ok_0)
                &&& (*final(port)).supplicant == (*port).supplicant
            },
        forall|port: &mut Ws63WifiBackend<D, S, W>, unit: ()| #[trigger]
            call_ensures(Ws63WifiBackend::<D, S, W>::cancel_scan, (port,), unit) ==> {
                &&& (*port).wifi is Some ==> exists|at: &mut D| #[trigger]
                    call_ensures(D::cancel_scan, (at,), ()) && *at == (*port).wifi->0
                        && (*final(port)).wifi == Some(*final(at))
                &&& (*port).supplicant is Some ==> exists|at: &mut S| #[trigger]
                    call_ensures(S::cancel_scan_cache_capture, (at,), ()) && *at
                        == (*port).supplicant->0 && (*final(port)).supplicant == Some(*final(at))
            },
{
}

/// Each reading of the port is that of the same name of the supplicant, or of the words
/// that are always there; without a supplicant it is empty.
pub proof fn law_port_reads_what_it_is_asked<
    D: NativeDriver,
    S: NativeSupplicant,
    W: PortWords,
>(
    port: Ws63WifiBackend<D, S, W>,
    cached: bool,
    input: bool,
    stalled: bool,
    context: u32,
    network: u32,
    recovery: u32,
    driver: u32,
)
    requires
        call_ensures(Ws63WifiBackend::<D, S, W>::scan_cache_pending, (&port,), cached),
        call_ensures(Ws63WifiBackend::<D, S, W>::input_pending, (&port,), input),
        call_ensures(Ws63WifiBackend::<D, S, W>::external_auth_retry_stalled, (&port,), stalled),
        call_ensures(Ws63WifiBackend::<D, S, W>::context_diagnostic_word, (&port,), context),
        call_ensures(Ws63WifiBackend::<D, S, W>::match_diagnostic_word, (&port,), network),
        call_ensures(Ws63WifiBackend::<D, S, W>::recovery_diagnostic_word, (&port,), recovery),
        call_ensures(Ws63WifiBackend::<D, S, W>::driver_diagnostic_word, (&port,), driver),
    ensures
        port.supplicant is None ==> !cached && !input && !stalled && context == 0 && network == 0,
        port.supplicant matches Some(supplicant) ==> {
            &&& call_ensures(S::scan_cache_capture_pending, (&supplicant,), cached)
            &&& call_ensures(S::input_pending, (&supplicant,), input)
            &&& call_ensures(S::external_auth_retry_stalled, (&supplicant,), stalled)
            &&& call_ensures(S::context_diagnostic_word, (&supplicant,), context)
            &&& call_ensures(S::match_diagnostic_word, (&supplicant,), network)
        },
        call_ensures(W::recovery_diagnostic_word, (&port.words,), recovery),
        call_ensures(W::diagnostic_word, (&port.words,), driver),
{
}

} // verus!
