//! Dates, times of day, instants, durations and periods of the proleptic
//! Gregorian calendar, with their arithmetic.
//!
//! Every value is immutable: each operation gives a new value. The contract
//! of each function says what that value is, over the model in [`calendar`]:
//! leap years, lengths of months, and the Julian day number of a date. Where
//! a result cannot be held, a function either requires that it can be (the
//! setters of fields, the arithmetic of dates) or stops at the nearest value
//! that can (the arithmetic of durations, the day of the month after a move
//! by months or years); its documentation says which.
//!
//! The days between dates and the days of the week are taken from the `time`
//! crate, and the offsets of time zones from `time_tz`, through the functions
//! of [`civil`] and [`zone_id`] whose contracts are taken on trust.

pub mod calendar;
pub mod chrono_unit;
pub mod civil;
pub mod clock;
pub mod day_of_week;
pub mod duration;
pub mod instant;
pub mod iso;
pub mod local_date;
pub mod local_date_time;
pub mod local_time;
pub mod month;
pub mod month_day;
pub mod offset_date_time;
pub mod period;
pub mod temporal;
pub mod temporal_impls;
pub mod text;
pub mod year;
pub mod year_month;
pub mod zone_id;
pub mod zone_offset;
pub mod zoned_date_time;

pub use chrono_unit::{ChronoAdd, ChronoUnit};
pub use clock::{Clock, FixedClock, SystemClock};
pub use day_of_week::DayOfWeek;
pub use duration::Duration;
pub use instant::Instant;
pub use local_date::LocalDate;
pub use local_date_time::LocalDateTime;
pub use local_time::LocalTime;
pub use month::Month;
pub use month_day::MonthDay;
pub use offset_date_time::OffsetDateTime;
pub use period::Period;
pub use temporal::{Temporal, TemporalDate, TemporalDateTime, TemporalInstant, TemporalTime};
pub use year::Year;
pub use year_month::YearMonth;
pub use zone_id::ZoneId;
pub use zone_offset::ZoneOffset;
pub use zoned_date_time::ZonedDateTime;
