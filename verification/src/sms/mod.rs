//! Text messages and USSD: the channels that reach staff where data
//! connections are scarce.

use vstd::prelude::*;
use crate::table::Table;
use crate::text::{decimal, replace_all, str_replace, str_trim_end, trim_end_of, u64_to_string};

verus! {

/// The USSD codes of one country for what staff do most.
#[derive(Debug)]
pub struct UssdCodes {
    pub check_balance: String,
    pub check_attendance: String,
    pub request_leave: String,
    pub view_payslip: String,
    pub emergency_contact: String,
}

/// What [`UssdCodes`] hold, as mathematical values.
pub struct CodesView {
    pub check_balance: Seq<char>,
    pub check_attendance: Seq<char>,
    pub request_leave: Seq<char>,
    pub view_payslip: Seq<char>,
    pub emergency_contact: Seq<char>,
}

impl View for UssdCodes {
    type V = CodesView;

    open spec fn view(&self) -> CodesView {
        CodesView {
            check_balance: self.check_balance@,
            check_attendance: self.check_attendance@,
            request_leave: self.request_leave@,
            view_payslip: self.view_payslip@,
            emergency_contact: self.emergency_contact@,
        }
    }
}

/// The codes of one country, from their parts.
pub open spec fn codes(
    check_balance: &'static str,
    check_attendance: &'static str,
    request_leave: &'static str,
    view_payslip: &'static str,
    emergency_contact: &'static str,
) -> CodesView {
    CodesView {
        check_balance: check_balance@,
        check_attendance: check_attendance@,
        request_leave: request_leave@,
        view_payslip: view_payslip@,
        emergency_contact: emergency_contact@,
    }
}

/// The codes of the countries the platform serves over USSD: Nigeria,
/// Kenya, Ghana, Côte d'Ivoire and Senegal.
pub open spec fn builtin_codes() -> Map<Seq<char>, CodesView> {
    Map::<Seq<char>, CodesView>::empty().insert(
        "NG"@,
        codes("*400#", "*400*1#", "*400*2#", "*400*3#", "*400*9#"),
    ).insert(
        "KE"@,
        codes("*401#", "*401*1#", "*401*2#", "*401*3#", "*401*9#"),
    ).insert(
        "GH"@,
        codes("*402#", "*402*1#", "*402*2#", "*402*3#", "*402*9#"),
    ).insert(
        "CI"@,
        codes("*403#", "*403*1#", "*403*2#", "*403*3#", "*403*9#"),
    ).insert(
        "SN"@,
        codes("*404#", "*404*1#", "*404*2#", "*404*3#", "*404*9#"),
    )
}

/// The codes of a table, as mathematical values.
pub open spec fn code_views(table: Table<UssdCodes>) -> Map<Seq<char>, CodesView> {
    table@.map_values(|c: UssdCodes| c@)
}

/// The code that reports the attendance of `employee_id`: the attendance
/// code without the `#` at its end, then `*` and the id.
pub open spec fn attendance_ussd(c: CodesView, employee_id: Seq<char>) -> Seq<char> {
    trim_end_of(c.check_attendance, '#') + seq!['*'] + employee_id
}

/// The code that requests leave: the leave code without the `#` at its
/// end, then the id, the type of leave and the two dates, each after a
/// `*`, and a `#` to close.
pub open spec fn leave_request_ussd(
    c: CodesView,
    employee_id: Seq<char>,
    leave_type: u8,
    start_date: Seq<char>,
    end_date: Seq<char>,
) -> Seq<char> {
    trim_end_of(c.request_leave, '#') + seq!['*'] + employee_id + seq!['*'] + decimal(
        leave_type as nat,
    ) + seq!['*'] + start_date + seq!['*'] + end_date + seq!['#']
}

/// The codes of one country, from their parts.
fn make_codes(
    check_balance: &'static str,
    check_attendance: &'static str,
    request_leave: &'static str,
    view_payslip: &'static str,
    emergency_contact: &'static str,
) -> (c: UssdCodes)
    ensures
        c@ == codes(check_balance, check_attendance, request_leave, view_payslip, emergency_contact),
{
    UssdCodes {
        check_balance: check_balance.to_owned(),
        check_attendance: check_attendance.to_owned(),
        request_leave: request_leave.to_owned(),
        view_payslip: view_payslip.to_owned(),
        emergency_contact: emergency_contact.to_owned(),
    }
}

/// The USSD codes of every country served.
#[derive(Debug)]
pub struct UssdRegistry {
    codes: Table<UssdCodes>,
}

impl UssdRegistry {
    /// The codes, by country.
    pub closed spec fn codes(&self) -> Map<Seq<char>, CodesView> {
        code_views(self.codes)
    }

    /// A registry with the codes of the countries served.
    pub fn new() -> (r: UssdRegistry)
        ensures
            r.codes() == builtin_codes(),
    {
        let mut table: Table<UssdCodes> = Table::new();
        assert(code_views(table) =~= Map::<Seq<char>, CodesView>::empty());
        let ghost before1 = code_views(table);
        table.insert("NG".to_owned(), make_codes("*400#", "*400*1#", "*400*2#", "*400*3#", "*400*9#"));
        assert(code_views(table) =~= before1.insert("NG"@, codes("*400#", "*400*1#", "*400*2#", "*400*3#", "*400*9#")));
        let ghost before2 = code_views(table);
        table.insert("KE".to_owned(), make_codes("*401#", "*401*1#", "*401*2#", "*401*3#", "*401*9#"));
        assert(code_views(table) =~= before2.insert("KE"@, codes("*401#", "*401*1#", "*401*2#", "*401*3#", "*401*9#")));
        let ghost before3 = code_views(table);
        table.insert("GH".to_owned(), make_codes("*402#", "*402*1#", "*402*2#", "*402*3#", "*402*9#"));
        assert(code_views(table) =~= before3.insert("GH"@, codes("*402#", "*402*1#", "*402*2#", "*402*3#", "*402*9#")));
        let ghost before4 = code_views(table);
        table.insert("CI".to_owned(), make_codes("*403#", "*403*1#", "*403*2#", "*403*3#", "*403*9#"));
        assert(code_views(table) =~= before4.insert("CI"@, codes("*403#", "*403*1#", "*403*2#", "*403*3#", "*403*9#")));
        let ghost before5 = code_views(table);
        table.insert("SN".to_owned(), make_codes("*404#", "*404*1#", "*404*2#", "*404*3#", "*404*9#"));
        assert(code_views(table) =~= before5.insert("SN"@, codes("*404#", "*404*1#", "*404*2#", "*404*3#", "*404*9#")));
        UssdRegistry { codes: table }
    }

    /// The codes of a country, if the platform serves it over USSD.
    pub fn get_codes(&self, country_code: &str) -> (r: Option<&UssdCodes>)
        ensures
            match r {
                Some(c) => self.codes().contains_key(country_code@) && c@
                    == self.codes()[country_code@],
                None => !self.codes().contains_key(country_code@),
            },
    {
        self.codes.get(country_code)
    }

    /// The code an employee dials to report attendance; `None` for a
    /// country that is not served.
    pub fn build_attendance_ussd(&self, country_code: &str, employee_id: &str) -> (r: Option<
        String,
    >)
        ensures
            match r {
                Some(s) => self.codes().contains_key(country_code@) && s@ == attendance_ussd(
                    self.codes()[country_code@],
                    employee_id@,
                ),
                None => !self.codes().contains_key(country_code@),
            },
    {
        match self.get_codes(country_code) {
            Some(c) => {
                proof {
                    reveal_strlit("*");
                }
                let mut s = str_trim_end(c.check_attendance.as_str(), '#').to_owned();
                s.append("*");
                s.append(employee_id);
                assert(s@ =~= attendance_ussd(c@, employee_id@));
                Some(s)
            },
            None => None,
        }
    }

    /// The code an employee dials to request leave; `None` for a country
    /// that is not served.
    pub fn build_leave_request_ussd(
        &self,
        country_code: &str,
        employee_id: &str,
        leave_type: u8,
        start_date: &str,
        end_date: &str,
    ) -> (r: Option<String>)
        ensures
            match r {
                Some(s) => self.codes().contains_key(country_code@) && s@ == leave_request_ussd(
                    self.codes()[country_code@],
                    employee_id@,
                    leave_type,
                    start_date@,
                    end_date@,
                ),
                None => !self.codes().contains_key(country_code@),
            },
    {
        match self.get_codes(country_code) {
            Some(c) => {
                proof {
                    reveal_strlit("*");
                    reveal_strlit("#");
                }
                let mut s = str_trim_end(c.request_leave.as_str(), '#').to_owned();
                s.append("*");
                s.append(employee_id);
                s.append("*");
                s.append(u64_to_string(leave_type as u64).as_str());
                s.append("*");
                s.append(start_date);
                s.append("*");
                s.append(end_date);
                s.append("#");
                assert(s@ =~= leave_request_ussd(
                    c@,
                    employee_id@,
                    leave_type,
                    start_date@,
                    end_date@,
                ));
                Some(s)
            },
            None => None,
        }
    }
}

impl Default for UssdRegistry {
    fn default() -> (r: UssdRegistry)
        ensures
            r.codes() == builtin_codes(),
    {
        UssdRegistry::new()
    }
}

/// The templates of the text messages in one language. A template names
/// what is to be filled in between braces.
#[derive(Debug)]
pub struct SmsTemplates {
    pub payslip_ready: String,
    pub leave_approved: String,
    pub leave_rejected: String,
    pub attendance_reminder: String,
    pub salary_credit: String,
}

/// What [`SmsTemplates`] hold, as mathematical values.
pub struct TemplatesView {
    pub payslip_ready: Seq<char>,
    pub leave_approved: Seq<char>,
    pub leave_rejected: Seq<char>,
    pub attendance_reminder: Seq<char>,
    pub salary_credit: Seq<char>,
}

impl View for SmsTemplates {
    type V = TemplatesView;

    open spec fn view(&self) -> TemplatesView {
        TemplatesView {
            payslip_ready: self.payslip_ready@,
            leave_approved: self.leave_approved@,
            leave_rejected: self.leave_rejected@,
            attendance_reminder: self.attendance_reminder@,
            salary_credit: self.salary_credit@,
        }
    }
}

/// The templates of one language, from their parts.
pub open spec fn templates(
    payslip_ready: &'static str,
    leave_approved: &'static str,
    leave_rejected: &'static str,
    attendance_reminder: &'static str,
    salary_credit: &'static str,
) -> TemplatesView {
    TemplatesView {
        payslip_ready: payslip_ready@,
        leave_approved: leave_approved@,
        leave_rejected: leave_rejected@,
        attendance_reminder: attendance_reminder@,
        salary_credit: salary_credit@,
    }
}

/// The templates in English, French, Hausa, Yoruba and Swahili.
pub open spec fn builtin_templates() -> Map<Seq<char>, TemplatesView> {
    Map::<Seq<char>, TemplatesView>::empty().insert(
        "en"@,
        templates(
            "OpenSASE: Your payslip for {period} is ready. Net: {currency}{amount}. View in app or dial {ussd}",
            "OpenSASE: Your {leave_type} leave from {start_date} to {end_date} has been APPROVED.",
            "OpenSASE: Your {leave_type} leave request has been REJECTED. Reason: {reason}",
            "OpenSASE: Reminder to check in. Dial {ussd} or open the app.",
            "OpenSASE: Salary of {currency}{amount} credited for {period}.",
        ),
    ).insert(
        "fr"@,
        templates(
            "OpenSASE: Bulletin de paie pour {period} prêt. Net: {currency}{amount}. Composez {ussd}",
            "OpenSASE: Votre congé {leave_type} du {start_date} au {end_date} a été APPROUVÉ.",
            "OpenSASE: Demande de congé refusée. Raison: {reason}",
            "OpenSASE: Rappel pointage. Composez {ussd}.",
            "OpenSASE: Salaire de {currency}{amount} crédité pour {period}.",
        ),
    ).insert(
        "ha"@,
        templates(
            "OpenSASE: Takardar albashin {period} ya shirya. Net: {currency}{amount}. Danna {ussd}",
            "OpenSASE: An amince da hutu {leave_type} daga {start_date} zuwa {end_date}.",
            "OpenSASE: An ki bukatar hutu. Dalili: {reason}",
            "OpenSASE: Tunatarwa don shiga aiki. Danna {ussd}.",
            "OpenSASE: An saka albashi na {currency}{amount} domin {period}.",
        ),
    ).insert(
        "yo"@,
        templates(
            "OpenSASE: Owo isẹ rẹ fun {period} ti ṣetan. Net: {currency}{amount}. Tẹ {ussd}",
            "OpenSASE: Isinmi {leave_type} rẹ lati {start_date} si {end_date} ti FỌWỌSI.",
            "OpenSASE: A ko ibeere isinmi. Idi: {reason}",
            "OpenSASE: Ranti lati check in. Tẹ {ussd}.",
            "OpenSASE: Owo oya {currency}{amount} ti wọle fun {period}.",
        ),
    ).insert(
        "sw"@,
        templates(
            "OpenSASE: Sliipu ya {period} ipo tayari. Net: {currency}{amount}. Piga {ussd}",
            "OpenSASE: Likizo {leave_type} kuanzia {start_date} hadi {end_date} IMEKUBALIWA.",
            "OpenSASE: Ombi la likizo LIMEKATALIWA. Sababu: {reason}",
            "OpenSASE: Ukumbusho kuingia kazini. Piga {ussd}.",
            "OpenSASE: Mshahara wa {currency}{amount} umewekwa kwa {period}.",
        ),
    )
}

/// The templates of a table, as mathematical values.
pub open spec fn template_views(table: Table<SmsTemplates>) -> Map<Seq<char>, TemplatesView> {
    table@.map_values(|t: SmsTemplates| t@)
}

/// The message that tells an employee that a payslip is ready.
pub open spec fn payslip_sms(
    t: TemplatesView,
    period: Seq<char>,
    currency: Seq<char>,
    amount: Seq<char>,
    ussd: Seq<char>,
) -> Seq<char> {
    replace_all(
        replace_all(
            replace_all(replace_all(t.payslip_ready, "{period}"@, period), "{currency}"@, currency),
            "{amount}"@,
            amount,
        ),
        "{ussd}"@,
        ussd,
    )
}

/// The message that tells an employee that leave was approved.
pub open spec fn leave_approved_sms(
    t: TemplatesView,
    leave_type: Seq<char>,
    start_date: Seq<char>,
    end_date: Seq<char>,
) -> Seq<char> {
    replace_all(
        replace_all(replace_all(t.leave_approved, "{leave_type}"@, leave_type), "{start_date}"@, start_date),
        "{end_date}"@,
        end_date,
    )
}

/// The message that tells an employee that the salary was paid.
pub open spec fn salary_credit_sms(
    t: TemplatesView,
    currency: Seq<char>,
    amount: Seq<char>,
    period: Seq<char>,
) -> Seq<char> {
    replace_all(
        replace_all(replace_all(t.salary_credit, "{currency}"@, currency), "{amount}"@, amount),
        "{period}"@,
        period,
    )
}

/// The templates of one language, from their parts.
fn make_templates(
    payslip_ready: &'static str,
    leave_approved: &'static str,
    leave_rejected: &'static str,
    attendance_reminder: &'static str,
    salary_credit: &'static str,
) -> (t: SmsTemplates)
    ensures
        t@ == templates(
            payslip_ready,
            leave_approved,
            leave_rejected,
            attendance_reminder,
            salary_credit,
        ),
{
    SmsTemplates {
        payslip_ready: payslip_ready.to_owned(),
        leave_approved: leave_approved.to_owned(),
        leave_rejected: leave_rejected.to_owned(),
        attendance_reminder: attendance_reminder.to_owned(),
        salary_credit: salary_credit.to_owned(),
    }
}

/// The message templates in every language the platform writes in.
#[derive(Debug)]
pub struct SmsTemplateRegistry {
    templates: Table<SmsTemplates>,
    english: usize,
}

impl SmsTemplateRegistry {
    /// The templates, by language.
    pub closed spec fn templates(&self) -> Map<Seq<char>, TemplatesView> {
        template_views(self.templates)
    }

    /// The templates used for `language`: its own, or the English ones
    /// where the platform does not write in it.
    pub open spec fn templates_for(&self, language: Seq<char>) -> TemplatesView {
        if self.templates().contains_key(language) {
            self.templates()[language]
        } else {
            self.templates()["en"@]
        }
    }

    #[verifier::type_invariant]
    pub closed spec fn inv(&self) -> bool {
        &&& self.english < self.templates.keys().len()
        &&& self.templates.keys()[self.english as int] == "en"@
    }

    /// A registry with the templates of every language.
    pub fn new() -> (r: SmsTemplateRegistry)
        ensures
            r.templates() == builtin_templates(),
    {
        let mut table: Table<SmsTemplates> = Table::new();
        assert(template_views(table) =~= Map::<Seq<char>, TemplatesView>::empty());
        let ghost before1 = template_views(table);
        table.insert(
            "en".to_owned(),
            make_templates(
                "OpenSASE: Your payslip for {period} is ready. Net: {currency}{amount}. View in app or dial {ussd}",
                "OpenSASE: Your {leave_type} leave from {start_date} to {end_date} has been APPROVED.",
                "OpenSASE: Your {leave_type} leave request has been REJECTED. Reason: {reason}",
                "OpenSASE: Reminder to check in. Dial {ussd} or open the app.",
                "OpenSASE: Salary of {currency}{amount} credited for {period}.",
            ),
        );
        assert(template_views(table) =~= before1.insert(
            "en"@,
            templates(
                "OpenSASE: Your payslip for {period} is ready. Net: {currency}{amount}. View in app or dial {ussd}",
                "OpenSASE: Your {leave_type} leave from {start_date} to {end_date} has been APPROVED.",
                "OpenSASE: Your {leave_type} leave request has been REJECTED. Reason: {reason}",
                "OpenSASE: Reminder to check in. Dial {ussd} or open the app.",
                "OpenSASE: Salary of {currency}{amount} credited for {period}.",
            ),
        ));
        let ghost before2 = template_views(table);
        table.insert(
            "fr".to_owned(),
            make_templates(
                "OpenSASE: Bulletin de paie pour {period} prêt. Net: {currency}{amount}. Composez {ussd}",
                "OpenSASE: Votre congé {leave_type} du {start_date} au {end_date} a été APPROUVÉ.",
                "OpenSASE: Demande de congé refusée. Raison: {reason}",
                "OpenSASE: Rappel pointage. Composez {ussd}.",
                "OpenSASE: Salaire de {currency}{amount} crédité pour {period}.",
            ),
        );
        assert(template_views(table) =~= before2.insert(
            "fr"@,
            templates(
                "OpenSASE: Bulletin de paie pour {period} prêt. Net: {currency}{amount}. Composez {ussd}",
                "OpenSASE: Votre congé {leave_type} du {start_date} au {end_date} a été APPROUVÉ.",
                "OpenSASE: Demande de congé refusée. Raison: {reason}",
                "OpenSASE: Rappel pointage. Composez {ussd}.",
                "OpenSASE: Salaire de {currency}{amount} crédité pour {period}.",
            ),
        ));
        let ghost before3 = template_views(table);
        table.insert(
            "ha".to_owned(),
            make_templates(
                "OpenSASE: Takardar albashin {period} ya shirya. Net: {currency}{amount}. Danna {ussd}",
                "OpenSASE: An amince da hutu {leave_type} daga {start_date} zuwa {end_date}.",
                "OpenSASE: An ki bukatar hutu. Dalili: {reason}",
                "OpenSASE: Tunatarwa don shiga aiki. Danna {ussd}.",
                "OpenSASE: An saka albashi na {currency}{amount} domin {period}.",
            ),
        );
        assert(template_views(table) =~= before3.insert(
            "ha"@,
            templates(
                "OpenSASE: Takardar albashin {period} ya shirya. Net: {currency}{amount}. Danna {ussd}",
                "OpenSASE: An amince da hutu {leave_type} daga {start_date} zuwa {end_date}.",
                "OpenSASE: An ki bukatar hutu. Dalili: {reason}",
                "OpenSASE: Tunatarwa don shiga aiki. Danna {ussd}.",
                "OpenSASE: An saka albashi na {currency}{amount} domin {period}.",
            ),
        ));
        let ghost before4 = template_views(table);
        table.insert(
            "yo".to_owned(),
            make_templates(
                "OpenSASE: Owo isẹ rẹ fun {period} ti ṣetan. Net: {currency}{amount}. Tẹ {ussd}",
                "OpenSASE: Isinmi {leave_type} rẹ lati {start_date} si {end_date} ti FỌWỌSI.",
                "OpenSASE: A ko ibeere isinmi. Idi: {reason}",
                "OpenSASE: Ranti lati check in. Tẹ {ussd}.",
                "OpenSASE: Owo oya {currency}{amount} ti wọle fun {period}.",
            ),
        );
        assert(template_views(table) =~= before4.insert(
            "yo"@,
            templates(
                "OpenSASE: Owo isẹ rẹ fun {period} ti ṣetan. Net: {currency}{amount}. Tẹ {ussd}",
                "OpenSASE: Isinmi {leave_type} rẹ lati {start_date} si {end_date} ti FỌWỌSI.",
                "OpenSASE: A ko ibeere isinmi. Idi: {reason}",
                "OpenSASE: Ranti lati check in. Tẹ {ussd}.",
                "OpenSASE: Owo oya {currency}{amount} ti wọle fun {period}.",
            ),
        ));
        let ghost before5 = template_views(table);
        table.insert(
            "sw".to_owned(),
            make_templates(
                "OpenSASE: Sliipu ya {period} ipo tayari. Net: {currency}{amount}. Piga {ussd}",
                "OpenSASE: Likizo {leave_type} kuanzia {start_date} hadi {end_date} IMEKUBALIWA.",
                "OpenSASE: Ombi la likizo LIMEKATALIWA. Sababu: {reason}",
                "OpenSASE: Ukumbusho kuingia kazini. Piga {ussd}.",
                "OpenSASE: Mshahara wa {currency}{amount} umewekwa kwa {period}.",
            ),
        );
        assert(template_views(table) =~= before5.insert(
            "sw"@,
            templates(
                "OpenSASE: Sliipu ya {period} ipo tayari. Net: {currency}{amount}. Piga {ussd}",
                "OpenSASE: Likizo {leave_type} kuanzia {start_date} hadi {end_date} IMEKUBALIWA.",
                "OpenSASE: Ombi la likizo LIMEKATALIWA. Sababu: {reason}",
                "OpenSASE: Ukumbusho kuingia kazini. Piga {ussd}.",
                "OpenSASE: Mshahara wa {currency}{amount} umewekwa kwa {period}.",
            ),
        ));
        match table.position("en") {
            Some(english) => SmsTemplateRegistry { templates: table, english },
            None => {
                proof {
                    table.lemma_view();
                    assert(template_views(table).contains_key("en"@));
                    assert(table@.contains_key("en"@));
                }
                SmsTemplateRegistry { templates: table, english: 0 }
            },
        }
    }

    /// The templates used for `language`: its own, or the English ones
    /// where the platform does not write in it.
    pub fn get_templates(&self, language: &str) -> (t: &SmsTemplates)
        ensures
            t@ == self.templates_for(language@),
    {
        proof {
            use_type_invariant(self);
            use_type_invariant(&self.templates);
            self.templates.lemma_view();
        }
        match self.templates.get(language) {
            Some(t) => t,
            None => self.templates.value_at(self.english),
        }
    }

    /// The message that tells an employee that a payslip is ready, in
    /// `language`.
    pub fn format_payslip_sms(
        &self,
        language: &str,
        period: &str,
        currency: &str,
        amount: &str,
        ussd: &str,
    ) -> (s: String)
        ensures
            s@ == payslip_sms(self.templates_for(language@), period@, currency@, amount@, ussd@),
    {
        proof {
            reveal_strlit("{period}");
            reveal_strlit("{currency}");
            reveal_strlit("{amount}");
            reveal_strlit("{ussd}");
        }
        let t = self.get_templates(language);
        let a = str_replace(t.payslip_ready.as_str(), "{period}", period);
        let b = str_replace(a.as_str(), "{currency}", currency);
        let c = str_replace(b.as_str(), "{amount}", amount);
        str_replace(c.as_str(), "{ussd}", ussd)
    }

    /// The message that tells an employee that leave was approved, in
    /// `language`.
    pub fn format_leave_approved_sms(
        &self,
        language: &str,
        leave_type: &str,
        start_date: &str,
        end_date: &str,
    ) -> (s: String)
        ensures
            s@ == leave_approved_sms(
                self.templates_for(language@),
                leave_type@,
                start_date@,
                end_date@,
            ),
    {
        proof {
            reveal_strlit("{leave_type}");
            reveal_strlit("{start_date}");
            reveal_strlit("{end_date}");
        }
        let t = self.get_templates(language);
        let a = str_replace(t.leave_approved.as_str(), "{leave_type}", leave_type);
        let b = str_replace(a.as_str(), "{start_date}", start_date);
        str_replace(b.as_str(), "{end_date}", end_date)
    }

    /// The message that tells an employee that the salary was paid, in
    /// `language`.
    pub fn format_salary_credit_sms(
        &self,
        language: &str,
        currency: &str,
        amount: &str,
        period: &str,
    ) -> (s: String)
        ensures
            s@ == salary_credit_sms(self.templates_for(language@), currency@, amount@, period@),
    {
        proof {
            reveal_strlit("{currency}");
            reveal_strlit("{amount}");
            reveal_strlit("{period}");
        }
        let t = self.get_templates(language);
        let a = str_replace(t.salary_credit.as_str(), "{currency}", currency);
        let b = str_replace(a.as_str(), "{amount}", amount);
        str_replace(b.as_str(), "{period}", period)
    }
}

impl Default for SmsTemplateRegistry {
    fn default() -> (r: SmsTemplateRegistry)
        ensures
            r.templates() == builtin_templates(),
    {
        SmsTemplateRegistry::new()
    }
}

/// Where a record stands between a device and the server.
#[derive(Debug, Clone, Copy, PartialEq, Eq, Structural)]
pub enum SyncStatus {
    Synced,
    Pending,
    Error,
    Conflict,
}

/// What an operation queued on a device does to a record.
#[derive(Debug, Clone, Copy, PartialEq, Eq, Structural)]
pub enum OperationType {
    Create,
    Update,
    Delete,
}

} // verus!
