pub mod url_calculator;
