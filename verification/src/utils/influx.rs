//! Lines for the metrics collector: an event, its labels and its values.

use vstd::prelude::*;
use vstd::string::StringExecFns;

verus! {

/// One measurement, built up label by label and value by value.
#[derive(Debug)]
pub struct Influx {
    event: String,
    labels: String,
    values: String,
}

/// The three texts of an [`Influx`].
pub struct InfluxView {
    pub event: Seq<char>,
    pub labels: Seq<char>,
    pub values: Seq<char>,
}

impl View for Influx {
    type V = InfluxView;

    closed spec fn view(&self) -> InfluxView {
        InfluxView { event: self.event@, labels: self.labels@, values: self.values@ }
    }
}

/// `key=value`, after a comma unless it is the first of its list.
pub open spec fn with_pair(list: Seq<char>, key: Seq<char>, value: Seq<char>) -> Seq<char> {
    if list.len() == 0 {
        key + "="@ + value
    } else {
        list + ","@ + key + "="@ + value
    }
}

impl Influx {
    /// A measurement of `event` without labels, that counts one.
    pub fn new(event: &str) -> (influx: Influx)
        ensures
            influx@ == (InfluxView {
                event: event@,
                labels: Seq::<char>::empty(),
                values: "value=1"@,
            }),
    {
        Influx { event: event.to_owned(), labels: String::new(), values: "value=1".to_owned() }
    }

    /// Adds the label `key=value`.
    pub fn label(self, key: &str, value: &str) -> (influx: Influx)
        ensures
            influx@ == (InfluxView { labels: with_pair(self@.labels, key@, value@), ..self@ }),
    {
        let mut labels = self.labels;
        if labels.as_str().unicode_len() != 0 {
            labels.append(",");
        }
        labels.append(key);
        labels.append("=");
        labels.append(value);
        Influx { event: self.event, labels, values: self.values }
    }

    /// Adds the value `key=value`.
    pub fn value(self, key: &str, value: &str) -> (influx: Influx)
        ensures
            influx@ == (InfluxView {
                values: self@.values + ","@ + key@ + "="@ + value@,
                ..self@
            }),
    {
        let mut values = self.values;
        values.append(",");
        values.append(key);
        values.append("=");
        values.append(value);
        Influx { event: self.event, labels: self.labels, values }
    }

    /// The line to post to the collector: the event, the labels, a space, the
    /// values.
    pub fn line(&self) -> (line: String)
        ensures
            line@ == self@.event + self@.labels + " "@ + self@.values,
    {
        let mut line = self.event.clone();
        line.append(self.labels.as_str());
        line.append(" ");
        line.append(self.values.as_str());
        line
    }
}

} // verus!
