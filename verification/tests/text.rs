use d1_binder::param::Param;
use d1_binder::value::Value;
use sea_query::prelude::BigDecimal;
use std::str::FromStr;
use time::format_description::parse_borrowed;
use time::{Date, Month, OffsetDateTime, PrimitiveDateTime, Time, UtcOffset};

const DATE: &str = "[year]-[month]-[day]";
const TIME: &str = "[hour padding:none]:[minute]:[second].[subsecond]";
const DATE_TIME: &str = "[year]-[month]-[day] [hour padding:none]:[minute]:[second].[subsecond]";
const WITH_OFFSET: &str = "[year]-[month]-[day] [hour padding:none]:[minute]:[second].[subsecond] \
                           [offset_hour sign:mandatory]:[offset_minute]:[offset_second]";

fn written(value: Value) -> String {
    match value.into_param() {
        Ok(Param::Text(text)) => text,
        other => panic!("expected text, got {:?}", other),
    }
}

fn moment() -> PrimitiveDateTime {
    let date = Date::from_calendar_date(1999, Month::December, 31).unwrap();
    let time = Time::from_hms_nano(23, 59, 58, 987_654_321).unwrap();
    PrimitiveDateTime::new(date, time)
}

#[test]
fn a_written_date_reads_back() {
    let format = parse_borrowed::<2>(DATE).unwrap();
    for date in [
        Date::from_calendar_date(2024, Month::February, 29).unwrap(),
        Date::from_calendar_date(1, Month::January, 1).unwrap(),
        Date::from_calendar_date(9999, Month::December, 31).unwrap(),
    ] {
        let text = written(Value::TimeDate(Some(date)));
        assert_eq!(Date::parse(&text, &format), Ok(date));
    }
}

#[test]
fn a_written_time_of_day_reads_back() {
    let format = parse_borrowed::<2>(TIME).unwrap();
    for time in [
        Time::from_hms(0, 0, 0).unwrap(),
        Time::from_hms_nano(7, 8, 9, 1).unwrap(),
        Time::from_hms_nano(23, 59, 59, 999_999_999).unwrap(),
        Time::from_hms_milli(12, 30, 0, 250).unwrap(),
    ] {
        let text = written(Value::TimeTime(Some(time)));
        assert_eq!(Time::parse(&text, &format), Ok(time));
    }
}

#[test]
fn a_written_date_time_reads_back() {
    let format = parse_borrowed::<2>(DATE_TIME).unwrap();
    let text = written(Value::TimeDateTime(Some(moment())));
    assert_eq!(text, "1999-12-31 23:59:58.987654321");
    assert_eq!(PrimitiveDateTime::parse(&text, &format), Ok(moment()));
}

#[test]
fn a_written_date_time_with_offset_reads_back() {
    let format = parse_borrowed::<2>(WITH_OFFSET).unwrap();
    for offset in [
        UtcOffset::UTC,
        UtcOffset::from_hms(5, 45, 0).unwrap(),
        UtcOffset::from_hms(-11, -30, -15).unwrap(),
    ] {
        let at = moment().assume_offset(offset);
        let text = written(Value::TimeDateTimeWithTimeZone(Some(at)));
        let back = OffsetDateTime::parse(&text, &format).unwrap();
        assert_eq!(back, at);
        assert_eq!(back.offset(), offset);
    }
}

#[test]
fn a_written_big_decimal_reads_back() {
    for digits in [
        "0",
        "-1",
        "123.456",
        "0.1000",
        "-98765432109876543210987654321.012345678901234567890123456789",
        "1e-40",
        "12345678901234567890e25",
    ] {
        let number = BigDecimal::from_str(digits).unwrap();
        let same = BigDecimal::from_str(digits).unwrap();
        let text = written(Value::BigDecimal(Some(number)));
        assert_eq!(BigDecimal::from_str(&text), Ok(same));
    }
}

#[test]
fn different_values_are_written_differently() {
    let early = Time::from_hms_nano(7, 8, 9, 1).unwrap();
    let late = Time::from_hms_nano(7, 8, 9, 2).unwrap();
    assert_ne!(written(Value::TimeTime(Some(early))), written(Value::TimeTime(Some(late))));
    let east = moment().assume_offset(UtcOffset::from_hms(1, 0, 0).unwrap());
    let west = moment().assume_offset(UtcOffset::from_hms(-1, 0, 0).unwrap());
    assert_ne!(
        written(Value::TimeDateTimeWithTimeZone(Some(east))),
        written(Value::TimeDateTimeWithTimeZone(Some(west)))
    );
    let one = BigDecimal::from_str("1.0000000000000000000000000000000000000001").unwrap();
    let other = BigDecimal::from_str("1.0000000000000000000000000000000000000002").unwrap();
    assert_ne!(written(Value::BigDecimal(Some(one))), written(Value::BigDecimal(Some(other))));
}
