//! Asking the weather service, and reading what it answers. The exchange goes
//! in steps: the request is sent, `after_send` says what to read of the reply,
//! and `after_json` or `after_error_body` says what came of it.
use crate::text::{contains, decimal, joined3, occurs, stands_at};
use reqwest::StatusCode;
use vstd::prelude::*;

verus! {

/// What the service says of the weather, in words.
#[derive(Debug)]
pub struct WeatherInfo {
    pub description: String,
}

/// A temperature in degrees Celsius, as it is shown.
#[derive(Debug)]
pub struct MainInfo {
    /// With one digit behind the point.
    pub temp_rounded: String,
    /// With as many digits as it takes.
    pub temp: String,
}

/// What the service answers about a city that it knows.
#[derive(Debug)]
pub struct WeatherResponse {
    pub weather: Vec<WeatherInfo>,
    pub main: MainInfo,
    pub name: String,
}

/// The weather in a city, ready to be told.
#[derive(Debug)]
pub struct WeatherReport {
    /// The city's name, as the service has it.
    pub city: String,
    pub temp: MainInfo,
    pub description: String,
}

/// What a `WeatherReport` holds.
pub struct WeatherReportView {
    pub city: Seq<char>,
    pub temp_rounded: Seq<char>,
    pub temp: Seq<char>,
    pub description: Seq<char>,
}

impl View for WeatherReport {
    type V = WeatherReportView;

    open spec fn view(&self) -> WeatherReportView {
        WeatherReportView {
            city: self.city@,
            temp_rounded: self.temp.temp_rounded@,
            temp: self.temp.temp@,
            description: self.description@,
        }
    }
}

/// What came of asking for the weather.
pub open spec fn outcome_view(r: Result<WeatherReport, String>) -> Result<
    WeatherReportView,
    Seq<char>,
> {
    match r {
        Ok(report) => Ok(report@),
        Err(e) => Err(e@),
    }
}

/// What to do once the request has been sent.
#[derive(Debug)]
pub enum WeatherStep {
    /// Read the reply as a `WeatherResponse`, and go on with `after_json`.
    ReadJson,
    /// Read the reply as a text, and go on with `after_error_body`.
    ReadErrorBody,
    /// Nothing: the request failed.
    Failed(String),
}

/// Whether `status` is a status code of HTTP.
pub open spec fn is_status(status: u16) -> bool {
    100 <= status <= 999
}

/// How a status code is shown: its number and what it means.
pub uninterp spec fn status_text(status: u16) -> Seq<char>;

/// `StatusCode::is_success`, for a number that `StatusCode::from_u16` takes.
#[verifier::external_body]
fn is_success(status: u16) -> (r: bool)
    requires
        is_status(status),
    ensures
        r == (200 <= status <= 299),
{
    StatusCode::from_u16(status).unwrap().is_success()
}

/// `StatusCode`'s `to_string`, for a number that `StatusCode::from_u16` takes.
/// The result is named, since the meanings are a table; it begins with the
/// number and a space.
#[verifier::external_body]
fn show_status(status: u16) -> (r: String)
    requires
        is_status(status),
    ensures
        r@ == status_text(status),
        decimal(status as nat).push(' ').is_prefix_of(r@),
{
    StatusCode::from_u16(status).unwrap().to_string()
}

/// The address that gives the weather in `city`.
pub fn weather_url(city: &str, api_key: &str) -> (r: String)
    ensures
        r@ == url_of(city@, api_key@),
        r@ == "https://api.openweathermap.org/data/2.5/weather?q="@ + city@ + "&appid="@ + api_key@
            + "&units=metric&lang=ru"@,
{
    let mut r = joined3("https://api.openweathermap.org/data/2.5/weather?q=", city, "&appid=");
    r.append(api_key);
    r.append("&units=metric&lang=ru");
    r
}

/// The address that gives the weather in `city`.
pub open spec fn url_of(city: Seq<char>, api_key: Seq<char>) -> Seq<char> {
    "https://api.openweathermap.org/data/2.5/weather?q="@ + city + "&appid="@ + api_key
        + "&units=metric&lang=ru"@
}

/// What a `WeatherStep` holds.
pub enum WeatherStepView {
    ReadJson,
    ReadErrorBody,
    Failed(Seq<char>),
}

impl View for WeatherStep {
    type V = WeatherStepView;

    open spec fn view(&self) -> WeatherStepView {
        match self {
            WeatherStep::ReadJson => WeatherStepView::ReadJson,
            WeatherStep::ReadErrorBody => WeatherStepView::ReadErrorBody,
            WeatherStep::Failed(m) => WeatherStepView::Failed(m@),
        }
    }
}

/// What to do once the request has been sent.
pub open spec fn step_after(sent: Result<u16, String>) -> WeatherStepView {
    match sent {
        Ok(status) => if 200 <= status <= 299 {
            WeatherStepView::ReadJson
        } else {
            WeatherStepView::ReadErrorBody
        },
        Err(e) => WeatherStepView::Failed("Ошибка сети: "@ + e@),
    }
}

/// What to do once the request has been sent, with the reply's status code or
/// with the error of the network.
pub fn after_send(sent: Result<u16, String>) -> (r: WeatherStep)
    requires
        sent matches Ok(status) ==> is_status(status),
    ensures
        r@ == step_after(sent),
        sent matches Ok(status) ==> (r is ReadJson <==> 200 <= status <= 299),
        sent matches Ok(status) ==> (r is ReadErrorBody <==> status < 200 || 299 < status),
        sent matches Err(e) ==> (r matches WeatherStep::Failed(m) && m@ == "Ошибка сети: "@ + e@),
{
    match sent {
        Ok(status) => if is_success(status) {
            WeatherStep::ReadJson
        } else {
            WeatherStep::ReadErrorBody
        },
        Err(e) => WeatherStep::Failed("Ошибка сети: ".to_string().concat(e.as_str())),
    }
}

/// The description to tell: the first one, if there is any.
pub open spec fn description_of(weather: Seq<WeatherInfo>) -> Seq<char> {
    if weather.len() > 0 {
        weather[0].description@
    } else {
        "нет данных"@
    }
}

/// What a reply of success gives, read as a `WeatherResponse` if it could be.
pub open spec fn report_of(parsed: Option<WeatherResponse>) -> Result<
    WeatherReportView,
    Seq<char>,
> {
    match parsed {
        Some(data) => Ok(
            WeatherReportView {
                city: data.name@,
                temp_rounded: data.main.temp_rounded@,
                temp: data.main.temp@,
                description: description_of(data.weather@),
            },
        ),
        None => Err("Ошибка обработки ответа API погоды"@),
    }
}

/// The weather, from a reply of success that was read as a `WeatherResponse`,
/// if it could be. What is told are the name of the city and the temperature as
/// the reply has them, and the first description of those that it has.
pub fn after_json(parsed: Option<WeatherResponse>) -> (r: Result<WeatherReport, String>)
    ensures
        outcome_view(r) == report_of(parsed),
        parsed is None ==> (r matches Err(e) && e@ == "Ошибка обработки ответа API погоды"@),
        parsed matches Some(data) ==> {
            &&& r matches Ok(report)
            &&& report.city@ == data.name@
            &&& report.temp.temp_rounded@ == data.main.temp_rounded@
            &&& report.temp.temp@ == data.main.temp@
            &&& data.weather@.len() > 0 ==> report.description@ == data.weather@[0].description@
            &&& data.weather@.len() == 0 ==> report.description@ == "нет данных"@
        },
{
    match parsed {
        Some(data) => {
            let description = if data.weather.len() > 0 {
                data.weather[0].description.clone()
            } else {
                "нет данных".to_string()
            };
            Ok(WeatherReport { city: data.name, temp: data.main, description })
        },
        None => Err("Ошибка обработки ответа API погоды".to_string()),
    }
}

/// What is wrong, given the status code that was no success, as it is shown,
/// and the text of the reply.
pub open spec fn api_error(shown_status: Seq<char>, body: Seq<char>) -> Seq<char> {
    if occurs("city not found"@, body) {
        "Город не найден"@
    } else {
        "Ошибка API погоды ("@ + shown_status + ")"@
    }
}

/// What stands for the text of a reply that could not be read.
pub const UNREAD_BODY: &'static str = "не удалось прочитать тело ошибки";

/// The text of a reply, or what stands for it where it could not be read.
pub open spec fn body_text(body: Option<String>) -> Seq<char> {
    match body {
        Some(t) => t@,
        None => UNREAD_BODY@,
    }
}

/// What is wrong, given the status code as it is shown, and the text of the
/// reply if it could be read.
pub fn error_message(shown_status: &str, body: Option<String>) -> (r: String)
    ensures
        r@ == api_error(shown_status@, body_text(body)),
        body matches Some(t) ==> r@ == if occurs("city not found"@, t@) {
            "Город не найден"@
        } else {
            "Ошибка API погоды ("@ + shown_status@ + ")"@
        },
        body is None ==> r@ == "Ошибка API погоды ("@ + shown_status@ + ")"@,
{
    proof {
        lemma_unread_body();
    }
    let error_body = match body {
        Some(t) => t,
        None => UNREAD_BODY.to_string(),
    };
    if contains(error_body.as_str(), "city not found") {
        "Город не найден".to_string()
    } else {
        joined3("Ошибка API погоды (", shown_status, ")")
    }
}

/// What is wrong, from a reply that was no success and the text that was read
/// of it, if any could be.
pub fn after_error_body(status: u16, body: Option<String>) -> (r: String)
    requires
        is_status(status),
    ensures
        r@ == api_error(status_text(status), body_text(body)),
        !occurs("city not found"@, body_text(body)) ==> ("Ошибка API погоды ("@ + decimal(
            status as nat,
        ).push(' ')).is_prefix_of(r@),
        body matches Some(t) ==> r@ == if occurs("city not found"@, t@) {
            "Город не найден"@
        } else {
            "Ошибка API погоды ("@ + status_text(status) + ")"@
        },
        body is None ==> r@ == "Ошибка API погоды ("@ + status_text(status) + ")"@,
{
    let shown = show_status(status);
    let r = error_message(shown.as_str(), body);
    proof {
        let head = "Ошибка API погоды ("@;
        let number = decimal(status as nat).push(' ');
        if !occurs("city not found"@, body_text(body)) {
            assert forall|i: int| 0 <= i < (head + number).len() implies (head + number)[i]
                == r@[i] by {
                if i >= head.len() {
                    assert(shown@[i - head.len()] == number[i - head.len()]);
                }
            }
        }
    }
    r
}

/// A reply whose text could not be read is never taken for an unknown city.
pub proof fn law_unread_body(status: u16)
    ensures
        api_error(status_text(status), body_text(None)) == "Ошибка API погоды ("@ + status_text(
            status,
        ) + ")"@,
{
    lemma_unread_body();
}

/// What stands for a reply that could not be read does not speak of a city.
proof fn lemma_unread_body()
    ensures
        !occurs("city not found"@, UNREAD_BODY@),
{
    let unread = UNREAD_BODY@;
    let sought = "city not found"@;
    reveal_strlit("не удалось прочитать тело ошибки");
    reveal_strlit("city not found");
    if occurs(sought, unread) {
        let i = choose|i: int| stands_at(sought, unread, i);
        assert(unread.subrange(i, i + sought.len())[0] == unread[i]);
        assert(unread[i] == 'c');
    }
}

/// A temperature, a name and a description reach the report as the reply has
/// them, and of several descriptions it is the first: what is told where there
/// is none is told nowhere else, unless the reply itself says so.
pub proof fn law_report_repeats_the_reply(data: WeatherResponse)
    ensures
        report_of(Some(data)) is Ok,
        ({
            let report = report_of(Some(data))->Ok_0;
            &&& report.city == data.name@
            &&& report.temp_rounded == data.main.temp_rounded@
            &&& report.temp == data.main.temp@
            &&& data.weather@.len() > 0 ==> report.description == data.weather@[0].description@
            &&& data.weather@.len() == 0 ==> report.description == "нет данных"@
            &&& report.description == "нет данных"@ <==> data.weather@.len() == 0
                || data.weather@[0].description@ == "нет данных"@
        }),
        report_of(None) == Err::<WeatherReportView, Seq<char>>(
            "Ошибка обработки ответа API погоды"@,
        ),
{
}

/// Two replies that agree in the name, the temperature and the first description
/// give the same report, whatever else they describe.
pub proof fn law_later_descriptions_do_not_matter(a: WeatherResponse, b: WeatherResponse)
    requires
        a.name@ == b.name@,
        a.main.temp@ == b.main.temp@,
        a.main.temp_rounded@ == b.main.temp_rounded@,
        a.weather@.len() > 0,
        b.weather@.len() > 0,
        a.weather@[0].description@ == b.weather@[0].description@,
    ensures
        report_of(Some(a)) == report_of(Some(b)),
{
}

/// A reply is read for the weather exactly where its status is a success, and
/// for what went wrong at every other status; an error of the network is told in
/// full.
pub proof fn law_what_is_read(status: u16, e: String)
    ensures
        step_after(Ok(status)) == WeatherStepView::ReadJson <==> 200 <= status <= 299,
        step_after(Ok(status)) == WeatherStepView::ReadErrorBody <==> status < 200 || 299 < status,
        step_after(Err(e)) == WeatherStepView::Failed("Ошибка сети: "@ + e@),
{
}

/// A reply without success that says that the city was not found, in front of
/// and behind anything else, is told as that, whatever its status.
pub proof fn law_city_not_found(shown_status: Seq<char>, before: Seq<char>, after: Seq<char>)
    ensures
        api_error(shown_status, before + "city not found"@ + after) == "Город не найден"@,
{
    let sought = "city not found"@;
    let body = before + sought + after;
    let n = before.len() as int;
    assert(body.subrange(n, n + sought.len()) =~= sought);
    assert(stands_at(sought, body, n));
}

/// A reply without success that does not say so is told with its status.
pub proof fn law_status_is_told(shown_status: Seq<char>, body: Seq<char>)
    requires
        forall|i: int|
            0 <= i <= body.len() - "city not found"@.len() ==> #[trigger] body.subrange(
                i,
                i + "city not found"@.len(),
            ) != "city not found"@,
    ensures
        api_error(shown_status, body) == "Ошибка API погоды ("@ + shown_status + ")"@,
{
}

/// What of a reply could be read is taken as it is.
pub proof fn law_body_is_taken_as_it_is(t: String)
    ensures
        body_text(Some(t)) == t@,
        body_text(None) == "не удалось прочитать тело ошибки"@,
{
}

/// The service is asked for the city and with the key that were given: each
/// stands in the address as it is, at its place.
pub proof fn law_address(city: Seq<char>, api_key: Seq<char>)
    ensures
        url_of(city, api_key) == "https://api.openweathermap.org/data/2.5/weather?q="@ + city
            + "&appid="@ + api_key + "&units=metric&lang=ru"@,
{
}

/// A report, a step and an outcome are seen as what they hold.
pub proof fn law_weather_is_seen_whole(report: WeatherReport, m: String)
    ensures
        report@.city == report.city@,
        report@.temp_rounded == report.temp.temp_rounded@,
        report@.temp == report.temp.temp@,
        report@.description == report.description@,
        outcome_view(Ok(report)) == Ok::<WeatherReportView, Seq<char>>(report@),
        outcome_view(Err(m)) == Err::<WeatherReportView, Seq<char>>(m@),
        WeatherStep::ReadJson@ == WeatherStepView::ReadJson,
        WeatherStep::ReadErrorBody@ == WeatherStepView::ReadErrorBody,
        WeatherStep::Failed(m)@ == WeatherStepView::Failed(m@),
{
}

/// What comes of asking for the weather, when the steps are followed: `sent` is
/// what sending the request gave, `parsed` and `body` what reading the reply
/// gives in either way.
pub open spec fn exchange_outcome(
    sent: Result<u16, String>,
    parsed: Option<WeatherResponse>,
    body: Option<String>,
) -> Result<WeatherReportView, Seq<char>> {
    match step_after(sent) {
        WeatherStepView::ReadJson => report_of(parsed),
        WeatherStepView::ReadErrorBody => Err(api_error(status_text(sent->Ok_0), body_text(body))),
        WeatherStepView::Failed(m) => Err(m),
    }
}

/// What comes of asking for the weather, step by step: the weather that a
/// success holds, what went wrong where there was none, and the error of the
/// network where there was no reply.
pub proof fn law_exchange(
    status: u16,
    e: String,
    parsed: Option<WeatherResponse>,
    body: Option<String>,
)
    ensures
        200 <= status <= 299 ==> exchange_outcome(Ok(status), parsed, body) == report_of(parsed),
        !(200 <= status <= 299) ==> exchange_outcome(Ok(status), parsed, body) == Err::<
            WeatherReportView,
            Seq<char>,
        >(api_error(status_text(status), body_text(body))),
        exchange_outcome(Err(e), parsed, body) == Err::<WeatherReportView, Seq<char>>(
            "Ошибка сети: "@ + e@,
        ),
{
}

/// The weather is told exactly where the service answered with success and
/// with what a `WeatherResponse` can be read from.
pub proof fn law_weather_is_told(
    sent: Result<u16, String>,
    parsed: Option<WeatherResponse>,
    body: Option<String>,
)
    ensures
        exchange_outcome(sent, parsed, body) is Ok <==> (sent matches Ok(status) && 200 <= status
            <= 299 && parsed is Some),
{
}

/// A city is called unknown exactly where the service answered without success
/// and said so in the reply.
pub proof fn law_city_is_unknown(
    sent: Result<u16, String>,
    parsed: Option<WeatherResponse>,
    body: Option<String>,
)
    ensures
        exchange_outcome(sent, parsed, body) == Err::<WeatherReportView, Seq<char>>(
            "Город не найден"@,
        ) <==> (sent matches Ok(status) && !(200 <= status <= 299) && occurs(
            "city not found"@,
            body_text(body),
        )),
{
    reveal_strlit("Город не найден");
    reveal_strlit("Ошибка сети: ");
    reveal_strlit("Ошибка API погоды (");
    reveal_strlit("Ошибка обработки ответа API погоды");
    assert("Город не найден"@[0] == 'Г');
    assert("Ошибка обработки ответа API погоды"@[0] == 'О');
    if sent is Ok {
        let status = sent->Ok_0;
        assert(("Ошибка API погоды ("@ + status_text(status) + ")"@)[0] == 'О');
    } else {
        assert(("Ошибка сети: "@ + sent->Err_0@)[0] == 'О');
    }
}

} // verus!
